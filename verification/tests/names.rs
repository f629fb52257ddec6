use xtask::names::{parse_github_account, parse_project_name};
use xtask::text::trim_text;

#[test]
fn test_parse_project_name() {
    // valid names
    assert_eq!(parse_project_name("myproject"), Ok("myproject".into()));
    assert_eq!(parse_project_name("my-project"), Ok("my-project".into()));
    assert_eq!(parse_project_name("my_project"), Ok("my_project".into()));
    assert_eq!(parse_project_name("project123"), Ok("project123".into()));
    assert_eq!(parse_project_name("_private"), Ok("_private".into()));
    assert_eq!(parse_project_name("MyProject"), Ok("MyProject".into()));
    assert_eq!(parse_project_name("  myproject  "), Ok("myproject".into()));

    // invalid names
    assert!(parse_project_name("").is_err());
    assert!(parse_project_name("   ").is_err());
    assert!(parse_project_name("123project").is_err());
    assert!(parse_project_name("-project").is_err());
    assert!(parse_project_name("my@project").is_err());
    assert!(parse_project_name("my project").is_err());
    assert!(parse_project_name("my.project").is_err());
}

#[test]
fn test_parse_github_account() {
    // valid accounts
    assert_eq!(parse_github_account("myuser"), Ok("myuser".into()));
    assert_eq!(parse_github_account("my-org"), Ok("my-org".into()));
    assert_eq!(parse_github_account("  myuser  "), Ok("myuser".into()));

    // invalid accounts
    assert!(parse_github_account("").is_err());
    assert!(parse_github_account("   ").is_err());
}

#[test]
fn project_name_error_messages() {
    assert_eq!(
        parse_project_name(""),
        Err("project name cannot be empty".to_string())
    );
    assert_eq!(
        parse_project_name(" \t\n "),
        Err("project name cannot be empty".to_string())
    );
    assert_eq!(
        parse_project_name("123project"),
        Err("the name cannot start with a digit: '1'".to_string())
    );
    assert_eq!(
        parse_project_name("-project"),
        Err("the first character must be a letter or `_`, found: '-'".to_string())
    );
    assert_eq!(
        parse_project_name("my@project"),
        Err("invalid character '@': only letters, numbers, `-`, or `_` are allowed".to_string())
    );
    // the first offending character is the one reported
    assert_eq!(
        parse_project_name("a.b@c"),
        Err("invalid character '.': only letters, numbers, `-`, or `_` are allowed".to_string())
    );
    assert_eq!(
        parse_project_name("my project"),
        Err("invalid character ' ': only letters, numbers, `-`, or `_` are allowed".to_string())
    );
}

#[test]
fn project_name_non_ascii() {
    assert_eq!(
        parse_project_name("éclair"),
        Err("the first character must be a letter or `_`, found: 'é'".to_string())
    );
    assert_eq!(
        parse_project_name("caf\u{e9}"),
        Err("invalid character 'é': only letters, numbers, `-`, or `_` are allowed".to_string())
    );
    // Unicode white space around the name is trimmed like ASCII white space
    assert_eq!(parse_project_name("\u{3000}name\u{a0}"), Ok("name".to_string()));
    assert_eq!(parse_project_name("a"), Ok("a".to_string()));
    assert_eq!(parse_project_name("_"), Ok("_".to_string()));
}

#[test]
fn github_account_error_message() {
    assert_eq!(
        parse_github_account(" \u{2003} "),
        Err("GitHub account name cannot be empty".to_string())
    );
    assert_eq!(parse_github_account(" a b "), Ok("a b".to_string()));
}

#[test]
fn trimming_is_idempotent_and_insensitive() {
    let inputs = ["  x y  ", "\t\n", "", "abc", "\u{85}z\u{2028}"];
    for input in inputs {
        let once = trim_text(input);
        assert_eq!(trim_text(&once), once);
        assert_eq!(once, input.trim());
        assert_eq!(parse_project_name(&once), parse_project_name(input));
        assert_eq!(parse_github_account(&once), parse_github_account(input));
    }
}

#[test]
fn accepted_names_are_stable() {
    for input in ["  my-project ", "Ab_9", "x"] {
        let name = parse_project_name(input).unwrap();
        assert_eq!(parse_project_name(&name), Ok(name.clone()));
        let account = parse_github_account(input).unwrap();
        assert_eq!(parse_github_account(&account), Ok(account.clone()));
    }
}
