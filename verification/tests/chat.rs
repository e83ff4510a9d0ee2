use llama_mini::app::App;
use llama_mini::models::{Msg, Settings};
use llama_mini::stream::chat_url;

fn ready() -> App {
    let mut app = App::new("/d".to_string(), "/m".to_string(), Settings::default(), 0);
    app.server_ready = true;
    app
}

fn turn(role: &str, content: &str) -> Msg {
    Msg { role: role.to_string(), content: content.to_string() }
}

#[test]
fn the_first_input_opens_two_turns() {
    let mut app = ready();
    let request = app.prepare_send("  hello \n").unwrap();
    assert_eq!(app.msgs, vec![turn("user", "hello"), turn("assistant", "")]);
    assert_eq!(request.messages, app.msgs);
    assert_eq!(request.model, "local");
    assert_eq!(request.url, "http://127.0.0.1:8080");
    assert_eq!(app.status, "Initializing...");
    assert_eq!(chat_url(&request.url), "http://127.0.0.1:8080/v1/chat/completions");
}

#[test]
fn an_open_turn_of_the_user_takes_the_input() {
    let mut app = ready();
    app.served_model_id = Some("m-7b".to_string());
    app.msgs = vec![turn("assistant", "hi"), turn("user", "one")];
    let request = app.prepare_send("two").unwrap();
    assert_eq!(
        app.msgs,
        vec![turn("assistant", "hi"), turn("user", "one\n\ntwo"), turn("assistant", "")]
    );
    assert_eq!(request.model, "m-7b");
    let mut app = ready();
    app.msgs = vec![turn("user", "")];
    let _ = app.prepare_send("x");
    assert_eq!(app.msgs, vec![turn("user", "x"), turn("assistant", "")]);
}

#[test]
fn after_the_assistant_a_new_turn_begins() {
    let mut app = ready();
    app.msgs = vec![turn("user", "q"), turn("assistant", "a")];
    let _ = app.prepare_send("next");
    assert_eq!(
        app.msgs,
        vec![turn("user", "q"), turn("assistant", "a"), turn("user", "next"), turn("assistant", "")]
    );
}

#[test]
fn a_blank_input_asks_nothing() {
    let mut app = ready();
    app.msgs = vec![turn("user", "q")];
    assert!(app.prepare_send(" \n\t").is_none());
    assert_eq!(app.msgs, vec![turn("user", "q")]);
    assert_eq!(app.status, "Initializing...");
}

#[test]
fn a_server_that_is_not_ready_is_remarked_on() {
    let mut app = ready();
    app.server_ready = false;
    assert!(app.prepare_send("").is_none());
    assert_eq!(app.status, "Server not ready yet");
    app.status = String::new();
    assert!(app.prepare_send("x").is_some());
    assert_eq!(app.status, "Server not ready yet");
    assert_eq!(app.msgs.len(), 2);
}

#[test]
fn a_new_chat_forgets_the_turns() {
    let mut app = ready();
    app.msgs = vec![turn("user", "q"), turn("assistant", "a")];
    app.new_chat();
    assert!(app.msgs.is_empty());
    assert_eq!(app.status, "New chat started");
}

#[test]
fn restarting_cuts_what_follows() {
    let mut app = ready();
    app.msgs = vec![turn("user", "1"), turn("assistant", "2"), turn("user", "3")];
    app.restart_from(5);
    assert_eq!(app.msgs.len(), 3);
    app.restart_from(2);
    assert_eq!(app.msgs.len(), 3);
    app.restart_from(0);
    assert_eq!(app.msgs, vec![turn("user", "1")]);
}

#[test]
fn calling_an_answer_off_shows_in_the_status() {
    let mut app = ready();
    app.msgs = vec![turn("user", "q"), turn("assistant", "par")];
    app.cancel_chat();
    assert_eq!(app.status, "Canceled");
    assert_eq!(app.msgs.len(), 2);
}
