use llama_mini::app::App;
use llama_mini::models::{DownloadedModel, Settings};
use llama_mini::scan::{
    comes_before, downloaded_models, is_listed_before, scan_downloaded_models, FoundFile,
};

fn file(name: &str, modified: Option<u64>) -> FoundFile {
    FoundFile {
        file_name: name.to_string(),
        path: format!("/models/{name}"),
        is_file: true,
        size: Some(name.len() as u64),
        modified,
    }
}

fn names(list: &[DownloadedModel]) -> Vec<&str> {
    list.iter().map(|m| m.file_name.as_str()).collect()
}

fn text(s: &str) -> Vec<char> {
    s.chars().collect()
}

#[test]
fn the_newest_model_comes_first() {
    let list = downloaded_models(vec![
        file("old.gguf", Some(10)),
        file("new.gguf", Some(30)),
        file("mid.gguf", Some(20)),
    ]);
    assert_eq!(names(&list), vec!["new.gguf", "mid.gguf", "old.gguf"]);
    assert_eq!(
        list[0],
        DownloadedModel {
            file_name: "new.gguf".to_string(),
            path: "/models/new.gguf".to_string(),
            size: Some(8)
        }
    );
}

#[test]
fn equally_new_models_go_by_name() {
    let list = downloaded_models(vec![
        file("b.gguf", Some(5)),
        file("a.gguf", Some(5)),
        file("B.gguf", Some(5)),
        file("ab.gguf", Some(5)),
        file("a.GGUF", Some(5)),
    ]);
    assert_eq!(names(&list), vec!["B.gguf", "a.GGUF", "a.gguf", "ab.gguf", "b.gguf"]);
}

#[test]
fn unknown_times_come_last() {
    let list = downloaded_models(vec![
        file("z.gguf", None),
        file("b.gguf", Some(0)),
        file("a.gguf", None),
    ]);
    assert_eq!(names(&list), vec!["b.gguf", "a.gguf", "z.gguf"]);
}

#[test]
fn only_regular_model_files_are_listed() {
    let mut dir = file("dir.gguf", Some(9));
    dir.is_file = false;
    let list = downloaded_models(vec![
        file("notes.txt", Some(9)),
        dir,
        file("m.gguf.part", Some(9)),
        file("M.GgUf", Some(1)),
    ]);
    assert_eq!(names(&list), vec!["M.GgUf"]);
    assert!(downloaded_models(Vec::new()).is_empty());
}

#[test]
fn files_with_the_same_key_keep_their_order() {
    let mut first = file("same.gguf", Some(1));
    first.path = "/one/same.gguf".to_string();
    let mut second = file("same.gguf", Some(1));
    second.path = "/two/same.gguf".to_string();
    let list = downloaded_models(vec![first, second]);
    assert_eq!(list[0].path, "/one/same.gguf");
    assert_eq!(list[1].path, "/two/same.gguf");
}

#[test]
fn the_listing_agrees_with_a_stable_sort() {
    let mut found = Vec::new();
    let mut seed: u64 = 12345;
    for i in 0..60 {
        seed = seed.wrapping_mul(6364136223846793005).wrapping_add(1442695040888963407);
        let modified = if seed % 5 == 0 { None } else { Some((seed >> 33) % 4) };
        let name = format!("{}{}.gguf", ["a", "B", "é", "ab", ""][(seed >> 40) as usize % 5], i % 3);
        let mut f = file(&name, modified);
        f.path = format!("/models/{i}");
        found.push(f);
    }
    let mut expected = found.clone();
    expected.sort_by(|a, b| b.modified.cmp(&a.modified).then_with(|| a.file_name.cmp(&b.file_name)));
    let list = downloaded_models(found);
    let paths: Vec<&str> = list.iter().map(|m| m.path.as_str()).collect();
    let expected_paths: Vec<&str> = expected.iter().map(|m| m.path.as_str()).collect();
    assert_eq!(paths, expected_paths);
}

#[test]
fn the_order_of_texts() {
    assert!(comes_before(&text(""), &text("a")));
    assert!(!comes_before(&text(""), &text("")));
    assert!(!comes_before(&text("a"), &text("")));
    assert!(comes_before(&text("a"), &text("ab")));
    assert!(comes_before(&text("Z"), &text("a")));
    assert!(comes_before(&text("z"), &text("é")));
    assert!(!comes_before(&text("abc"), &text("abc")));
    assert!(comes_before(&text("abc"), &text("abd")));
    assert!(!comes_before(&text("abd"), &text("abc")));
}

#[test]
fn the_order_of_files() {
    assert!(is_listed_before(&file("z", Some(2)), &file("a", Some(1))));
    assert!(!is_listed_before(&file("a", Some(1)), &file("z", Some(2))));
    assert!(is_listed_before(&file("a", Some(0)), &file("a", None)));
    assert!(is_listed_before(&file("a", None), &file("b", None)));
    assert!(!is_listed_before(&file("a", Some(1)), &file("a", Some(1))));
}

#[test]
fn the_list_goes_into_the_state() {
    let mut app = App::new("/d".to_string(), "/models".to_string(), Settings::default(), 0);
    scan_downloaded_models(&mut app, vec![file("b.gguf", Some(1)), file("a.gguf", Some(2))]);
    assert_eq!(names(&app.downloaded), vec!["a.gguf", "b.gguf"]);
    assert_eq!(app.status, "Initializing...");
    scan_downloaded_models(&mut app, Vec::new());
    assert!(app.downloaded.is_empty());
}
