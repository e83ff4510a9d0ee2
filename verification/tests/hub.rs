use llama_mini::hf::{files_url, gguf_files, is_gguf, model_ids, search_url};
use llama_mini::models::{HFFile, HFModel, HFModelInfo};

#[test]
fn a_blank_query_asks_nothing() {
    assert_eq!(search_url(""), None);
    assert_eq!(search_url("  \t\n"), None);
}

#[test]
fn a_query_is_percent_encoded() {
    assert_eq!(
        search_url("mistral 7b"),
        Some(
            "https://huggingface.co/api/models?search=mistral%207b&limit=20&pipeline_tag=text-generation"
                .to_string()
        )
    );
    assert_eq!(
        search_url(" a/b&c=é~_.-Z9 "),
        Some(
            "https://huggingface.co/api/models?search=%20a%2Fb%26c%3D%C3%A9~_.-Z9%20&limit=20&pipeline_tag=text-generation"
                .to_string()
        )
    );
}

#[test]
fn the_address_of_a_models_files() {
    assert_eq!(
        files_url("TheBloke/Mistral-7B-Instruct-v0.2-GGUF"),
        "https://huggingface.co/api/models/TheBloke/Mistral-7B-Instruct-v0.2-GGUF?expand[]=siblings"
    );
}

#[test]
fn identifiers_in_the_order_of_the_answer() {
    let models =
        vec![HFModel { id: "b/two".to_string() }, HFModel { id: "a/one".to_string() }];
    assert_eq!(model_ids(models), vec!["b/two", "a/one"]);
    assert!(model_ids(Vec::new()).is_empty());
}

#[test]
fn model_files_by_their_ending() {
    assert!(is_gguf("m.gguf"));
    assert!(is_gguf("M.Q4_K_M.GGUF"));
    assert!(is_gguf(".gGuF"));
    assert!(!is_gguf("m.gguf.part"));
    assert!(!is_gguf("gguf"));
    assert!(!is_gguf(""));
}

#[test]
fn only_model_files_are_kept() {
    let info = HFModelInfo {
        siblings: vec![
            HFFile { rfilename: "README.md".to_string(), size: Some(10) },
            HFFile { rfilename: "b.Q8.GGUF".to_string(), size: None },
            HFFile { rfilename: "config.json".to_string(), size: None },
            HFFile { rfilename: "a.Q4.gguf".to_string(), size: Some(4) },
        ],
    };
    assert_eq!(
        gguf_files(info),
        vec![
            HFFile { rfilename: "b.Q8.GGUF".to_string(), size: None },
            HFFile { rfilename: "a.Q4.gguf".to_string(), size: Some(4) },
        ]
    );
    assert!(gguf_files(HFModelInfo { siblings: Vec::new() }).is_empty());
}
