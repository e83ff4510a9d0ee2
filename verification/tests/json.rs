use llama_mini::json::{delta_content, served_model_id};
use llama_mini::stream::{document_outcome, FrameOutcome};

fn doc(text: &str) -> serde_json::Value {
    serde_json::from_str(text).unwrap()
}

#[test]
fn the_fragment_lies_at_a_fixed_path() {
    assert_eq!(
        delta_content(&doc("{\"choices\":[{\"delta\":{\"content\":\"Hi\"}},{\"delta\":{\"content\":\"no\"}}]}")),
        Some("Hi".to_string())
    );
    assert_eq!(delta_content(&doc("{\"choices\":[{\"delta\":{\"content\":\"\"}}]}")), Some(String::new()));
    assert_eq!(delta_content(&doc("{\"choices\":[{\"delta\":{\"content\":null}}]}")), None);
    assert_eq!(delta_content(&doc("{\"choices\":[{\"delta\":{}}]}")), None);
    assert_eq!(delta_content(&doc("{\"choices\":[{\"delta\":\"content\"}]}")), None);
    assert_eq!(delta_content(&doc("{\"choices\":[]}")), None);
    assert_eq!(delta_content(&doc("{\"choices\":{\"0\":{\"delta\":{\"content\":\"x\"}}}}")), None);
    assert_eq!(delta_content(&doc("[{\"delta\":{\"content\":\"x\"}}]")), None);
    assert_eq!(delta_content(&doc("null")), None);
    assert_eq!(delta_content(&doc("\"choices\"")), None);
}

#[test]
fn the_served_model_lies_at_a_fixed_path() {
    assert_eq!(served_model_id(&doc("{\"data\":[{\"id\":\"m\"}]}")), Some("m".to_string()));
    assert_eq!(served_model_id(&doc("{\"data\":[{\"id\":[\"m\"]}]}")), None);
    assert_eq!(served_model_id(&doc("{\"data\":[[{\"id\":\"m\"}]]}")), None);
    assert_eq!(served_model_id(&doc("{}")), None);
}

#[test]
fn a_document_gives_a_token_or_nothing() {
    assert_eq!(document_outcome(None), FrameOutcome::Skipped);
    assert_eq!(document_outcome(Some(doc("{}"))), FrameOutcome::Skipped);
    assert_eq!(
        document_outcome(Some(doc("{\"choices\":[{\"delta\":{\"content\":\"t\"}}]}"))),
        FrameOutcome::Token("t".to_string())
    );
}
