use llama_mini::text::{
    chars_of, contains, ends_with, find, matches_at, slice_of, starts_with, string_of,
    strip_prefix, trim,
};

fn cs(s: &str) -> Vec<char> {
    s.chars().collect()
}

#[test]
fn characters_and_back() {
    assert_eq!(chars_of("héllo"), vec!['h', 'é', 'l', 'l', 'o']);
    assert!(chars_of("").is_empty());
    assert_eq!(string_of(&cs("héllo")), "héllo");
    assert_eq!(string_of(&cs("")), "");
    assert_eq!(slice_of(&cs("abcdef"), 2, 4), cs("cd"));
}

#[test]
fn finding() {
    assert_eq!(find(&cs("a\n\nb\n\n"), &cs("\n\n")), Some(1));
    assert_eq!(find(&cs("a\n\n\nb"), &cs("\n\n")), Some(1));
    assert_eq!(find(&cs("a\nb\n"), &cs("\n\n")), None);
    assert_eq!(find(&cs("abc"), &cs("")), Some(0));
    assert_eq!(find(&cs(""), &cs("")), Some(0));
    assert_eq!(find(&cs(""), &cs("a")), None);
    assert_eq!(find(&cs("ab"), &cs("abc")), None);
    assert_eq!(find(&cs("aab"), &cs("ab")), Some(1));
    assert!(contains(&cs("ubuntu-cuda"), &cs("cuda")));
    assert!(!contains(&cs("ubuntu"), &cs("cuda")));
    assert!(matches_at(&cs("abc"), &cs("bc"), 1));
    assert!(!matches_at(&cs("abc"), &cs("bc"), 2));
    assert!(matches_at(&cs("abc"), &cs(""), 3));
    assert!(!matches_at(&cs("abc"), &cs(""), 4));
}

#[test]
fn beginnings_and_ends() {
    assert!(starts_with(&cs("[READY] x"), &cs("[READY]")));
    assert!(!starts_with(&cs(" [READY]"), &cs("[READY]")));
    assert!(starts_with(&cs(""), &cs("")));
    assert!(ends_with(&cs("m.gguf"), &cs(".gguf")));
    assert!(!ends_with(&cs("gguf"), &cs(".gguf")));
    assert!(ends_with(&cs("x"), &cs("")));
    assert_eq!(strip_prefix(&cs("data: x"), &cs("data:")), Some(cs(" x")));
    assert_eq!(strip_prefix(&cs("data:"), &cs("data:")), Some(cs("")));
    assert_eq!(strip_prefix(&cs("dat"), &cs("data:")), None);
}

#[test]
fn trimming() {
    assert_eq!(trim(&cs("  a b \t\r\n")), cs("a b"));
    assert_eq!(trim(&cs("\u{a0}\u{2003}x\u{85}")), cs("x"));
    assert_eq!(trim(&cs(" \n ")), cs(""));
    assert_eq!(trim(&cs("")), cs(""));
    assert_eq!(trim(&cs("\u{200b}x")), cs("\u{200b}x"));
}
