use llama_mini::app::{App, DownloadDrain, FollowUp};
use llama_mini::models::{
    Backend, DownloadEvent, DownloadKind, Msg, ServerStatus, Settings, StreamEvent,
};

fn fresh() -> App {
    App::new("/data".to_string(), "/data/models".to_string(), Settings::default(), 0)
}

#[test]
fn a_fresh_state() {
    let app = fresh();
    assert!(app.backend == Backend::Auto);
    assert_eq!(app.status, "Initializing...");
    assert_eq!(app.runtime_dir, "/data");
    assert_eq!(app.model_dir, "/data/models");
    assert_eq!(app.server_url, "http://127.0.0.1:8080");
    assert_eq!(app.model_repo, "TheBloke/Mistral-7B-Instruct-v0.2-GGUF");
    assert_eq!(app.model_file, "mistral-7b-instruct-v0.2.Q4_K_M.gguf");
    assert_eq!(app.server_status, ServerStatus::Stopped);
    assert!(!app.server_ready && !app.server_child);
    assert!(app.msgs.is_empty() && app.server_log.is_empty());
    assert_eq!(app.settings.server_timeout_minutes, 30);
    assert_eq!(app.settings.theme, "dark");
    assert_eq!(app.settings.max_chat_history, 1000);
    assert!(app.settings.auto_start_server && app.settings.auto_stop_server);
    assert_eq!(app.settings.default_runtime, None);
}

#[test]
fn tokens_grow_the_assistants_turn() {
    let mut app = fresh();
    app.msgs.push(Msg { role: "user".to_string(), content: "hello".to_string() });
    app.msgs.push(Msg { role: "assistant".to_string(), content: String::new() });
    let retain = app.drain_stream_events(vec![
        StreamEvent::Token("Hi".to_string()),
        StreamEvent::Token(" there".to_string()),
    ]);
    assert!(retain);
    assert_eq!(app.msgs[1].content, "Hi there");
    assert_eq!(app.msgs[0].content, "hello");
    assert_eq!(app.status, "Initializing...");
}

#[test]
fn tokens_leave_a_users_turn_alone() {
    let mut app = fresh();
    assert!(!app.apply_stream_event(StreamEvent::Token("x".to_string())));
    assert!(app.msgs.is_empty());
    app.msgs.push(Msg { role: "user".to_string(), content: "hello".to_string() });
    assert!(!app.apply_stream_event(StreamEvent::Token("x".to_string())));
    assert_eq!(app.msgs[0].content, "hello");
}

#[test]
fn the_end_of_a_stream_drops_it() {
    let mut app = fresh();
    app.msgs.push(Msg { role: "assistant".to_string(), content: String::new() });
    let retain = app.drain_stream_events(vec![
        StreamEvent::Token("a".to_string()),
        StreamEvent::Done,
        StreamEvent::Token("b".to_string()),
    ]);
    assert!(!retain);
    assert_eq!(app.msgs[0].content, "ab");
    assert_eq!(app.status, "Idle");
}

#[test]
fn a_chat_error_ends_the_stream_and_stays_in_the_status() {
    let mut app = fresh();
    assert!(!app.drain_stream_events(vec![StreamEvent::Error("read failed: x".to_string())]));
    assert_eq!(app.status, "Chat err: read failed: x");
    let mut app = fresh();
    assert!(!app.drain_stream_events(vec![
        StreamEvent::Error("request failed: y".to_string()),
        StreamEvent::Done,
    ]));
    assert_eq!(app.status, "Chat err: request failed: y");
    assert!(!app.drain_stream_events(vec![StreamEvent::Done]));
    assert_eq!(app.status, "Idle");
    assert!(app.drain_stream_events(vec![]));
    assert_eq!(app.status, "Idle");
}

#[test]
fn progress_of_a_model_shows_in_the_status() {
    let mut app = fresh();
    let follow_up = app.apply_download_event(DownloadEvent::Progress {
        kind: DownloadKind::Model,
        current: 1536,
        total: Some(3 * 1048576),
        stage: "download",
    });
    assert_eq!(follow_up, FollowUp::Nothing);
    assert_eq!(app.model_progress, Some((1536, Some(3145728), "download".to_string())));
    assert_eq!(app.runtime_progress, None);
    assert_eq!(app.status, "Model download: 1.50 KB / 3.00 MB");
}

#[test]
fn progress_of_a_runtime_without_a_total() {
    let mut app = fresh();
    let _ = app.apply_download_event(DownloadEvent::Progress {
        kind: DownloadKind::Runtime,
        current: 2,
        total: None,
        stage: "unpack",
    });
    assert_eq!(app.runtime_progress, Some((2, None, "unpack".to_string())));
    assert_eq!(app.status, "Runtime unpack: 2 B / ?");
}

#[test]
fn a_finished_model_is_selected() {
    let mut app = fresh();
    app.model_progress = Some((5, None, "download".to_string()));
    let follow_up = app.apply_download_event(DownloadEvent::Done {
        kind: DownloadKind::Model,
        dest: Some("/data/models/m.gguf".to_string()),
    });
    assert_eq!(follow_up, FollowUp::RescanModels);
    assert_eq!(app.model_path, Some("/data/models/m.gguf".to_string()));
    assert_eq!(app.model_progress, None);
    assert_eq!(app.status, "Model ready");
    let _ = app.apply_download_event(DownloadEvent::Done { kind: DownloadKind::Model, dest: None });
    assert_eq!(app.model_path, Some("/data/models/m.gguf".to_string()));
}

#[test]
fn a_finished_runtime_asks_for_its_binary() {
    let mut app = fresh();
    app.runtime_progress = Some((5, Some(5), "unpack".to_string()));
    let follow_up =
        app.apply_download_event(DownloadEvent::Done { kind: DownloadKind::Runtime, dest: None });
    assert_eq!(follow_up, FollowUp::LocateServerBin);
    assert_eq!(app.runtime_progress, None);
    assert_eq!(app.status, "Runtime ready");
}

#[test]
fn download_errors_show_and_clear_progress() {
    let mut app = fresh();
    app.runtime_progress = Some((5, None, "download".to_string()));
    app.model_progress = Some((6, None, "download".to_string()));
    let _ = app.apply_download_event(DownloadEvent::Error {
        kind: DownloadKind::Runtime,
        err: "refused".to_string(),
    });
    assert_eq!(app.status, "Runtime err: refused");
    assert_eq!(app.runtime_progress, None);
    assert!(app.model_progress.is_some());
    let _ = app.apply_download_event(DownloadEvent::Error {
        kind: DownloadKind::Model,
        err: "gone".to_string(),
    });
    assert_eq!(app.status, "Model err: gone");
    assert_eq!(app.model_progress, None);
}

#[test]
fn the_download_source_is_kept_until_a_terminal_event() {
    let mut app = fresh();
    let out = app.drain_download_events(vec![DownloadEvent::Progress {
        kind: DownloadKind::Model,
        current: 1,
        total: None,
        stage: "download",
    }]);
    assert_eq!(out, DownloadDrain { retain: true, rescan_models: false, locate_server_bin: false });
    let out = app.drain_download_events(vec![
        DownloadEvent::Progress {
            kind: DownloadKind::Model,
            current: 2,
            total: None,
            stage: "download",
        },
        DownloadEvent::Done { kind: DownloadKind::Model, dest: Some("/m".to_string()) },
    ]);
    assert_eq!(out, DownloadDrain { retain: false, rescan_models: true, locate_server_bin: false });
    let out = app.drain_download_events(vec![DownloadEvent::Done {
        kind: DownloadKind::Runtime,
        dest: None,
    }]);
    assert_eq!(out, DownloadDrain { retain: false, rescan_models: false, locate_server_bin: true });
    let out = app.drain_download_events(vec![DownloadEvent::Error {
        kind: DownloadKind::Runtime,
        err: "e".to_string(),
    }]);
    assert_eq!(out, DownloadDrain { retain: false, rescan_models: false, locate_server_bin: false });
    let out = app.drain_download_events(vec![]);
    assert_eq!(out, DownloadDrain { retain: true, rescan_models: false, locate_server_bin: false });
}

#[test]
fn sentinel_lines_set_readiness_and_model() {
    let mut app = fresh();
    app.server_status = ServerStatus::Starting;
    app.drain_log_lines(vec![
        "[OUT] loading".to_string(),
        "[READY] llama-server is ready".to_string(),
        "[MODEL] mistral-7b".to_string(),
        "[ERR] warn".to_string(),
    ]);
    assert!(app.server_ready);
    assert_eq!(app.server_status, ServerStatus::Running);
    assert_eq!(app.status, "Server ready");
    assert_eq!(app.served_model_id, Some("mistral-7b".to_string()));
    assert_eq!(app.server_log.len(), 4);
    assert_eq!(app.server_log.line(0), "[OUT] loading");
    assert_eq!(app.server_log.line(1), "[READY] llama-server is ready");
    assert_eq!(app.server_log.line(3), "[ERR] warn");
}

#[test]
fn ordinary_lines_only_go_to_the_log() {
    let mut app = fresh();
    app.server_status = ServerStatus::Starting;
    app.apply_log_line("[OUT] [READY] not at the start".to_string());
    app.apply_log_line("[MODEL]x".to_string());
    app.apply_log_line(" [READY]".to_string());
    assert!(!app.server_ready);
    assert_eq!(app.server_status, ServerStatus::Starting);
    assert_eq!(app.served_model_id, None);
    assert_eq!(app.status, "Initializing...");
    assert_eq!(app.server_log.len(), 3);
}

#[test]
fn the_model_sentinel_may_name_an_empty_model() {
    let mut app = fresh();
    app.apply_log_line("[MODEL] ".to_string());
    assert_eq!(app.served_model_id, Some(String::new()));
    app.apply_log_line("[MODEL]  spaced ".to_string());
    assert_eq!(app.served_model_id, Some(" spaced ".to_string()));
}

#[test]
fn the_log_of_the_state_is_bounded() {
    let mut app = fresh();
    let lines: Vec<String> = (0..2001).map(|i| format!("[OUT] {i}")).collect();
    app.drain_log_lines(lines);
    assert_eq!(app.server_log.len(), 2000);
    assert_eq!(app.server_log.line(0), "[OUT] 1");
    assert_eq!(app.server_log.line(1999), "[OUT] 2000");
}
