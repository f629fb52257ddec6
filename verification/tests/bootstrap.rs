use xtask::bootstrap::{
    check_project_root, confirm_answer, execute_bootstrap, prepare_inputs, update_cargo_lock,
    update_project_cargo_toml, update_readme, update_root_cargo_toml, update_semantic_yml,
    updated_text, BootstrapStep, FileUpdate, InputStep,
};
use xtask::replace::replace_in_content;

fn edits(u: &FileUpdate) -> Vec<(&str, &str)> {
    u.edits.iter().map(|r| (r.old.as_str(), r.new.as_str())).collect()
}

#[test]
fn project_root_check() {
    assert_eq!(check_project_root(true, true), Ok(()));
    let msg = Err("This command must be run from the project root directory".to_string());
    assert_eq!(check_project_root(false, true), msg);
    assert_eq!(check_project_root(true, false), msg);
    assert_eq!(check_project_root(false, false), msg);
}

#[test]
fn inputs_are_asked_for_in_order() {
    match prepare_inputs(None, None) {
        InputStep::AskProjectName { github_account } => assert_eq!(github_account, None),
        _ => panic!("the name comes first"),
    }
    match prepare_inputs(None, Some("me".into())) {
        InputStep::AskProjectName { github_account } => assert_eq!(github_account, Some("me".into())),
        _ => panic!("the name comes first"),
    }
    match prepare_inputs(Some("demo".into()), None) {
        InputStep::AskGithubAccount { project_name } => assert_eq!(project_name, "demo"),
        _ => panic!("the account is missing"),
    }
    match prepare_inputs(Some("demo".into()), Some("me".into())) {
        InputStep::Ready(n, a) => {
            assert_eq!(n, "demo");
            assert_eq!(a, "me");
        }
        _ => panic!("both are known"),
    }
}

#[test]
fn confirmation() {
    for yes in ["y", "yes", "Y", "YES", "  Yes\n", "yEs"] {
        assert!(confirm_answer(yes), "{yes:?}");
    }
    for no in ["", "n", "no", "ye", "yess", "y e s", "\n"] {
        assert!(!confirm_answer(no), "{no:?}");
    }
}

#[test]
fn file_updates() {
    let u = update_root_cargo_toml("demo", "me");
    assert_eq!(u.path, "Cargo.toml");
    assert_eq!(edits(&u), vec![("/fast", "/me"), ("template", "demo")]);
    let u = update_project_cargo_toml("demo");
    assert_eq!(u.path, "template/Cargo.toml");
    assert_eq!(edits(&u), vec![("template", "demo")]);
    let u = update_readme("demo", "me");
    assert_eq!(u.path, "README.md");
    assert_eq!(edits(&u), vec![("/fast", "/me"), ("/template", "/demo")]);
    let u = update_semantic_yml("demo", "me");
    assert_eq!(u.path, ".github/semantic.yml");
    assert_eq!(edits(&u), vec![("/fast/template", "/me/demo")]);
    let u = update_cargo_lock("demo");
    assert_eq!(u.path, "Cargo.lock");
    assert_eq!(edits(&u), vec![("template", "demo")]);
}

#[test]
fn bootstrap_steps_in_order() {
    let steps = execute_bootstrap("demo", "me");
    let names: Vec<String> = steps
        .iter()
        .map(|s| match s {
            BootstrapStep::Update(u) => u.path.clone(),
            BootstrapStep::RenameDir { from, to } => format!("{from} -> {to}"),
        })
        .collect();
    assert_eq!(
        names,
        vec![
            "Cargo.toml",
            "template/Cargo.toml",
            "README.md",
            ".github/semantic.yml",
            "Cargo.lock",
            "template -> demo"
        ]
    );
}

fn apply(content: &str, u: &FileUpdate) -> String {
    updated_text(content, u).unwrap_or_else(|| content.to_string())
}

fn apply_one_by_one(content: &str, u: &FileUpdate) -> String {
    let mut text = content.to_string();
    for r in &u.edits {
        if let Some(t) = replace_in_content(&text, &r.old, &r.new) {
            text = t;
        }
    }
    text
}

#[test]
fn updated_text_makes_edits_in_order() {
    let toml = "repository = \"https://github.com/fast/template\"\nname = \"template\"";
    let u = update_root_cargo_toml("demo", "me");
    let expected = "repository = \"https://github.com/me/demo\"\nname = \"demo\"";
    assert_eq!(updated_text(toml, &u), Some(expected.to_string()));
    assert_eq!(apply_one_by_one(toml, &u), expected);
    // nothing to replace: the file is left alone
    assert_eq!(updated_text("name = \"other\"", &u), None);
    // only the second replacement applies
    assert_eq!(
        updated_text("template", &u),
        Some("demo".to_string())
    );
}

#[test]
fn readme_after_bootstrap() {
    let readme = "[crates-url]: https://crates.io/crates/template\n\
                  [actions-url]:https://github.com/fast/template/actions";
    let u = update_readme("demo", "me");
    assert_eq!(
        apply(readme, &u),
        "[crates-url]: https://crates.io/crates/demo\n\
         [actions-url]:https://github.com/me/demo/actions"
    );
}

#[test]
fn bootstrap_as_template_changes_nothing() {
    let text = "repository = \"https://github.com/fast/template\"\nname = \"template\"";
    for step in execute_bootstrap("template", "fast") {
        match step {
            BootstrapStep::Update(u) => assert_eq!(apply(text, &u), text),
            BootstrapStep::RenameDir { from, to } => assert_eq!(from, to),
        }
    }
}
