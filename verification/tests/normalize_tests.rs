use encore::{normalize, normalize_line, to_vec};

fn strings(v: &[&str]) -> Vec<String> {
    v.iter().map(|s| s.to_string()).collect()
}

#[test]
fn empty_line_is_dropped() {
    assert_eq!(normalize_line("", "/home/u"), None);
}

#[test]
fn tilde_becomes_home() {
    assert_eq!(normalize_line("~/music/a.flac", "/home/u"), Some("/home/u/music/a.flac".to_string()));
}

#[test]
fn only_first_tilde_is_replaced() {
    assert_eq!(normalize_line("a~b~c", "HOME"), Some("aHOMEb~c".to_string()));
}

#[test]
fn line_without_tilde_is_unchanged() {
    assert_eq!(normalize_line("/srv/song.ogg", "/home/u"), Some("/srv/song.ogg".to_string()));
}

#[test]
fn tilde_in_non_ascii_line() {
    assert_eq!(normalize_line("é~ü", "ß"), Some("éßü".to_string()));
}

#[test]
fn normalize_keeps_order_and_drops_empty() {
    let lines = strings(&["", "~/x", "y", "", "~"]);
    assert_eq!(normalize(&lines, "/h"), strings(&["/h/x", "y", "/h"]));
}

#[test]
fn normalize_count_matches_non_empty_lines() {
    let lines = strings(&["a", "", "b", "", "", "c"]);
    let out = normalize(&lines, "/h");
    assert_eq!(out.len(), lines.iter().filter(|l| !l.is_empty()).count());
}

#[test]
fn normalize_of_nothing() {
    assert_eq!(normalize(&Vec::new(), "/h"), Vec::<String>::new());
}

#[test]
fn to_vec_all_read_matches_normalize() {
    let lines = strings(&["~/a", "", "b"]);
    let read: Vec<Result<String, String>> = lines.iter().cloned().map(Ok).collect();
    assert_eq!(to_vec(read, "/h"), Ok(normalize(&lines, "/h")));
}

#[test]
fn to_vec_returns_first_failure() {
    let read: Vec<Result<String, String>> = vec![
        Ok("a".to_string()),
        Err("first".to_string()),
        Ok("b".to_string()),
        Err("second".to_string()),
    ];
    assert_eq!(to_vec(read, "/h"), Err("first".to_string()));
}

#[test]
fn to_vec_of_nothing() {
    let read: Vec<Result<String, String>> = Vec::new();
    assert_eq!(to_vec(read, "/h"), Ok(Vec::new()));
}
