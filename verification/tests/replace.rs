use xtask::replace::replace_in_content;

#[test]
fn replace_absent_pattern_leaves_file_alone() {
    assert_eq!(replace_in_content("name = \"other\"", "template", "demo"), None);
    assert_eq!(replace_in_content("", "x", "y"), None);
}

#[test]
fn replace_every_occurrence() {
    assert_eq!(
        replace_in_content("template/template.rs template", "template", "demo"),
        Some("demo/demo.rs demo".to_string())
    );
    assert_eq!(
        replace_in_content("github.com/fast/template", "/fast", "/me"),
        Some("github.com/me/template".to_string())
    );
}

#[test]
fn replace_is_left_to_right_and_non_overlapping() {
    assert_eq!(replace_in_content("aaa", "aa", "b"), Some("ba".to_string()));
    assert_eq!(replace_in_content("aaaa", "aa", "a"), Some("aa".to_string()));
    assert_eq!(
        replace_in_content("aaa", "aa", "b"),
        Some("aaa".replace("aa", "b"))
    );
}

#[test]
fn replace_empty_pattern() {
    assert_eq!(replace_in_content("ab", "", "-"), Some("-a-b-".to_string()));
    assert_eq!(replace_in_content("", "", "-"), Some("-".to_string()));
}

#[test]
fn replace_non_ascii() {
    let text = "héllo wörld, héllo";
    assert_eq!(
        replace_in_content(text, "héllo", "hi"),
        Some(text.replace("héllo", "hi"))
    );
}

#[test]
fn replace_with_itself_is_identity() {
    let text = "/fast/template and template";
    assert_eq!(
        replace_in_content(text, "template", "template"),
        Some(text.to_string())
    );
}
