use llama_mini::download::{
    entry_action, human_size, progress_events, unpack_events, AfterBody, DownloadTask,
    EntryAction, Stage, Unpacker,
};
use llama_mini::models::{DownloadEvent, DownloadKind};

#[test]
fn human_size_in_bytes() {
    assert_eq!(human_size(0), "0 B");
    assert_eq!(human_size(7), "7 B");
    assert_eq!(human_size(1023), "1023 B");
}

#[test]
fn human_size_in_units() {
    assert_eq!(human_size(1024), "1.00 KB");
    assert_eq!(human_size(1536), "1.50 KB");
    assert_eq!(human_size(1048575), "1024.00 KB");
    assert_eq!(human_size(1048576), "1.00 MB");
    assert_eq!(human_size(5 * 1048576 + 262144), "5.25 MB");
    assert_eq!(human_size(1073741824), "1.00 GB");
    assert_eq!(human_size(4_368_439_296), "4.07 GB");
    assert_eq!(human_size(u64::MAX), "17179869184.00 GB");
}

#[test]
fn human_size_rounds_half_to_even() {
    // 1029.12 bytes would be 1.005 KB; the nearest sizes lie on either side.
    assert_eq!(human_size(1029), "1.00 KB");
    assert_eq!(human_size(1030), "1.01 KB");
    // 0.125 KB steps: 1.125 KB is a tie between 1.12 and 1.13.
    assert_eq!(human_size(1152), "1.12 KB");
    assert_eq!(human_size(1408), "1.38 KB");
}

#[test]
fn human_size_agrees_with_floating_point() {
    let samples: [u64; 12] = [
        1024,
        1025,
        999_999,
        1_234_567,
        33_554_431,
        1_073_741_823,
        1_073_741_825,
        9_007_199_254_740_993,
        9_007_199_254_740_995,
        1_234_567_890_123_456_789,
        u64::MAX - 1024,
        u64::MAX,
    ];
    for b in samples {
        let bf = b as f64;
        let expected = if bf >= 1073741824.0 {
            format!("{:.2} GB", bf / 1073741824.0)
        } else if bf >= 1048576.0 {
            format!("{:.2} MB", bf / 1048576.0)
        } else {
            format!("{:.2} KB", bf / 1024.0)
        };
        assert_eq!(human_size(b), expected);
    }
}

#[test]
fn progress_counts_never_go_down_and_end_at_the_length() {
    let chunks: Vec<usize> = vec![65536, 65536, 0, 1, 40000];
    let events = progress_events(DownloadKind::Model, Some(171073), &chunks);
    let mut currents = Vec::new();
    for ev in &events {
        match ev {
            DownloadEvent::Progress { kind, current, total, stage } => {
                assert_eq!(*kind, DownloadKind::Model);
                assert_eq!(*total, Some(171073));
                assert_eq!(*stage, "download");
                currents.push(*current);
            }
            other => panic!("unexpected event {:?}", other),
        }
    }
    assert_eq!(currents, vec![65536, 131072, 131072, 131073, 171073]);
    assert_eq!(*currents.last().unwrap(), chunks.iter().sum::<usize>() as u64);
}

#[test]
fn no_chunk_no_progress() {
    assert_eq!(progress_events(DownloadKind::Runtime, None, &Vec::new()), vec![]);
}

#[test]
fn task_of_a_model_ends_with_its_destination() {
    let mut task = DownloadTask::new(
        DownloadKind::Model,
        "https://example.org/m.gguf".to_string(),
        "/models/m.gguf".to_string(),
        None,
    );
    assert_eq!(task.stage(), Stage::Download);
    assert_eq!(task.bytes_downloaded(), 0);
    assert!(task.can_record(10));
    assert_eq!(
        task.record_chunk(10),
        DownloadEvent::Progress {
            kind: DownloadKind::Model,
            current: 10,
            total: None,
            stage: "download"
        }
    );
    assert_eq!(task.bytes_downloaded(), 10);
    assert_eq!(task.stage(), Stage::Download);
    assert_eq!(task.url(), "https://example.org/m.gguf");
    assert_eq!(task.destination(), "/models/m.gguf");
    assert_eq!(task.kind(), DownloadKind::Model);
    assert_eq!(task.total_bytes(), None);
    match task.finish_download() {
        AfterBody::Done(ev) => assert_eq!(
            ev,
            DownloadEvent::Done {
                kind: DownloadKind::Model,
                dest: Some("/models/m.gguf".to_string())
            }
        ),
        AfterBody::Unpack(_) => panic!("a model is not unpacked"),
    }
}

#[test]
fn task_of_a_runtime_goes_on_to_unpack() {
    let mut task = DownloadTask::new(
        DownloadKind::Runtime,
        "u".to_string(),
        "/rt/llama-runtime.zip".to_string(),
        Some(5),
    );
    let _ = task.record_chunk(5);
    let task = match task.finish_download() {
        AfterBody::Unpack(task) => task,
        AfterBody::Done(ev) => panic!("unexpected event {:?}", ev),
    };
    assert_eq!(task.stage(), Stage::Unpack);
    assert_eq!(task.bytes_downloaded(), 5);
    assert_eq!(task.destination(), "/rt/llama-runtime.zip");
    assert_eq!(
        task.finish_unpack(),
        DownloadEvent::Done { kind: DownloadKind::Runtime, dest: None }
    );
}

#[test]
fn task_failure_is_an_error_event() {
    let task = DownloadTask::new(DownloadKind::Runtime, String::new(), String::new(), None);
    assert_eq!(
        task.fail("disk full".to_string()),
        DownloadEvent::Error { kind: DownloadKind::Runtime, err: "disk full".to_string() }
    );
}

#[test]
fn task_knows_when_the_count_would_overflow() {
    let mut task = DownloadTask::new(DownloadKind::Model, String::new(), String::new(), None);
    let _ = task.record_chunk(usize::MAX);
    if usize::MAX as u64 == u64::MAX {
        assert!(!task.can_record(1));
    }
    assert!(task.can_record(0));
}

#[test]
fn unpack_sends_one_event_per_entry() {
    let events = unpack_events(3);
    assert_eq!(
        events,
        vec![
            DownloadEvent::Progress {
                kind: DownloadKind::Runtime,
                current: 1,
                total: Some(3),
                stage: "unpack"
            },
            DownloadEvent::Progress {
                kind: DownloadKind::Runtime,
                current: 2,
                total: Some(3),
                stage: "unpack"
            },
            DownloadEvent::Progress {
                kind: DownloadKind::Runtime,
                current: 3,
                total: Some(3),
                stage: "unpack"
            },
        ]
    );
    assert_eq!(unpack_events(0), vec![]);
}

#[test]
fn unpacker_counts_entries() {
    let mut unpacker = Unpacker::new(2);
    assert_eq!(unpacker.remaining(), 2);
    let _ = unpacker.record_entry();
    assert_eq!(unpacker.remaining(), 1);
    assert_eq!(
        unpacker.record_entry(),
        DownloadEvent::Progress {
            kind: DownloadKind::Runtime,
            current: 2,
            total: Some(2),
            stage: "unpack"
        }
    );
    assert_eq!(unpacker.remaining(), 0);
}

#[test]
fn entries_that_end_in_a_separator_are_directories() {
    assert_eq!(entry_action("bin/", true), EntryAction::CreateDir);
    assert_eq!(entry_action("/", false), EntryAction::CreateDir);
    assert_eq!(entry_action("bin/llama-server", true), EntryAction::WriteFile { make_executable: true });
    assert_eq!(entry_action("bin\\", false), EntryAction::WriteFile { make_executable: false });
    assert_eq!(entry_action("", false), EntryAction::WriteFile { make_executable: false });
}

#[test]
fn chunk_sizes() {
    assert_eq!(llama_mini::download::DOWNLOAD_CHUNK_BYTES, 64 * 1024);
    assert_eq!(llama_mini::stream::STREAM_CHUNK_BYTES, 8 * 1024);
}
