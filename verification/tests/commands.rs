use xtask::commands::{
    join_strs, make_build_cmd, make_clippy_cmd, make_format_cmd, make_hawkeye_cmd, make_taplo_cmd,
    make_serial_test_cmd, make_test_cmd, make_typos_cmd, ProcessCommand,
};
use xtask::tasks::{
    Command, CommandBootstrap, CommandBuild, CommandLint, CommandTest, SubCommand, Task,
};

fn args(c: &ProcessCommand) -> Vec<&str> {
    c.args.iter().map(|s| s.as_str()).collect()
}

fn install(c: &ProcessCommand) -> Option<(&str, &str)> {
    c.install
        .as_ref()
        .map(|t| (t.bin.as_str(), t.crate_name.as_str()))
}

#[test]
fn build_command() {
    let c = make_build_cmd(false);
    assert_eq!(c.program, "cargo");
    assert_eq!(
        args(&c),
        vec!["build", "--workspace", "--all-features", "--tests", "--examples", "--benches", "--bins"]
    );
    assert_eq!(install(&c), None);
    let c = make_build_cmd(true);
    assert_eq!(args(&c).last(), Some(&"--locked"));
    assert_eq!(c.args.len(), 8);
}

#[test]
fn test_command() {
    let c = make_test_cmd(false, true, &[]);
    assert_eq!(c.program, "cargo");
    assert_eq!(args(&c), vec!["test", "--workspace"]);
    let c = make_test_cmd(true, false, &["a", "b", "c"]);
    assert_eq!(
        args(&c),
        vec!["test", "--workspace", "--no-default-features", "--features", "a,b,c", "--", "--nocapture"]
    );
    let c = make_test_cmd(false, true, &["only"]);
    assert_eq!(args(&c), vec!["test", "--workspace", "--features", "only"]);
}

#[test]
fn serial_test_command() {
    let c = make_serial_test_cmd(true);
    assert_eq!(c.program, "cargo");
    assert_eq!(
        args(&c),
        vec!["test", "--workspace", "--", "--nocapture", "--test-threads=1"]
    );
    assert_eq!(args(&make_serial_test_cmd(false)), vec!["test", "--workspace"]);
    let t = CommandTest { no_capture: false }.run();
    match &t {
        Task::Run(cmds) => assert_eq!(args(&cmds[0]), vec!["test", "--workspace"]),
        _ => panic!("test runs commands"),
    }
}

#[test]
fn join() {
    assert_eq!(join_strs(&[], ","), "");
    assert_eq!(join_strs(&["x"], ","), "x");
    assert_eq!(join_strs(&["x", "y", "z"], ", "), "x, y, z");
}

#[test]
fn lint_commands() {
    assert_eq!(args(&make_format_cmd(false)), vec!["fmt", "--all", "--check"]);
    assert_eq!(args(&make_format_cmd(true)), vec!["fmt", "--all"]);
    assert_eq!(
        args(&make_clippy_cmd(false)),
        vec!["clippy", "--tests", "--all-features", "--all-targets", "--workspace", "--", "-D", "warnings"]
    );
    assert_eq!(
        args(&make_clippy_cmd(true)),
        vec!["clippy", "--tests", "--all-features", "--all-targets", "--workspace", "--allow-staged", "--allow-dirty", "--fix"]
    );
    let h = make_hawkeye_cmd(false);
    assert_eq!(h.program, "hawkeye");
    assert_eq!(args(&h), vec!["check"]);
    assert_eq!(install(&h), Some(("hawkeye", "hawkeye")));
    assert_eq!(args(&make_hawkeye_cmd(true)), vec!["format", "--fail-if-updated=false"]);
    let t = make_typos_cmd();
    assert_eq!(t.program, "typos");
    assert!(t.args.is_empty());
    assert_eq!(install(&t), Some(("typos", "typos-cli")));
    let t = make_taplo_cmd(false);
    assert_eq!(t.program, "taplo");
    assert_eq!(args(&t), vec!["format", "--check"]);
    assert_eq!(install(&t), Some(("taplo", "taplo-cli")));
    assert_eq!(args(&make_taplo_cmd(true)), vec!["format"]);
}

fn programs(t: &Task) -> Vec<String> {
    match t {
        Task::Run(cmds) => cmds.iter().map(|c| c.program.clone()).collect(),
        Task::Bootstrap { .. } => vec![],
    }
}

#[test]
fn subcommand_tasks() {
    let t = Command { sub: SubCommand::Lint(CommandLint { fix: false }) }.run();
    assert_eq!(programs(&t), vec!["cargo", "cargo", "taplo", "typos", "hawkeye"]);
    let f = Command { sub: SubCommand::Lint(CommandLint { fix: true }) }.run();
    if let Task::Run(cmds) = &f {
        assert_eq!(cmds[3].program, "typos");
        assert!(cmds[3].args.is_empty());
        assert_eq!(args(&cmds[4]), vec!["format", "--fail-if-updated=false"]);
    }
    if let Task::Run(cmds) = &t {
        assert_eq!(cmds[0].args[0], "clippy");
        assert_eq!(cmds[1].args[0], "fmt");
    }
    let t = CommandBuild { locked: true }.run();
    match &t {
        Task::Run(cmds) => {
            assert_eq!(cmds.len(), 1);
            assert_eq!(cmds[0].args.last().unwrap(), "--locked");
        }
        _ => panic!("build runs commands"),
    }
    let t = CommandTest { no_capture: true }.run();
    match &t {
        Task::Run(cmds) => assert_eq!(
            args(&cmds[0]),
            vec!["test", "--workspace", "--", "--nocapture", "--test-threads=1"]
        ),
        _ => panic!("test runs commands"),
    }
    let t = Command {
        sub: SubCommand::Bootstrap(CommandBootstrap {
            project_name: Some("demo".to_string()),
            github_account: None,
        }),
    }
    .run();
    match t {
        Task::Bootstrap { project_name, github_account } => {
            assert_eq!(project_name, Some("demo".to_string()));
            assert_eq!(github_account, None);
        }
        _ => panic!("bootstrap asks for the bootstrap"),
    }
}
