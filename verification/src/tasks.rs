//! The command line's subcommands and what each of them asks to be done.

use vstd::prelude::*;
use crate::commands::{
    ProcessCommand, ProcessCommandView, commands_view, build_command, serial_test_command,
    format_command, clippy_command, taplo_command, typos_command, hawkeye_command, make_build_cmd,
    make_serial_test_cmd, make_format_cmd, make_clippy_cmd, make_taplo_cmd, make_typos_cmd,
    make_hawkeye_cmd,
};

verus! {

/// The parsed command line.
pub struct Command {
    pub sub: SubCommand,
}

/// The subcommands.
pub enum SubCommand {
    /// Compile workspace packages.
    Build(CommandBuild),
    /// Bootstrap a new project from this template.
    Bootstrap(CommandBootstrap),
    /// Run format and clippy checks.
    Lint(CommandLint),
    /// Run unit tests.
    Test(CommandTest),
}

/// `build`: whether `Cargo.lock` must remain unchanged.
pub struct CommandBuild {
    pub locked: bool,
}

/// `bootstrap`: the project name and GitHub account, where they were given
/// on the command line (already validated there).
pub struct CommandBootstrap {
    pub project_name: Option<String>,
    pub github_account: Option<String>,
}

/// `test`: whether to run the tests serially and without capturing their
/// output.
pub struct CommandTest {
    pub no_capture: bool,
}

/// `lint`: whether to apply the lint suggestions.
pub struct CommandLint {
    pub fix: bool,
}

/// What a subcommand asks for: external commands to run one after another,
/// or the interactive bootstrap with the inputs given so far.
pub enum Task {
    Run(Vec<ProcessCommand>),
    Bootstrap { project_name: Option<String>, github_account: Option<String> },
}

/// The model of a `Task`.
pub enum TaskView {
    Run(Seq<ProcessCommandView>),
    Bootstrap(Option<Seq<char>>, Option<Seq<char>>),
}

/// An optional string, taken by its view.
pub open spec fn opt_view(o: Option<String>) -> Option<Seq<char>> {
    match o {
        Some(s) => Some(s@),
        None => None,
    }
}

impl View for Task {
    type V = TaskView;

    open spec fn view(&self) -> TaskView {
        match self {
            Task::Run(cmds) => TaskView::Run(commands_view(cmds@)),
            Task::Bootstrap { project_name, github_account } => TaskView::Bootstrap(
                opt_view(*project_name),
                opt_view(*github_account),
            ),
        }
    }
}

/// The commands that `lint` runs, in order: clippy, rustfmt, taplo, typos,
/// hawkeye. All but `typos` apply their suggestions when asked to fix;
/// `typos` only reports.
pub open spec fn lint_commands(fix: bool) -> Seq<ProcessCommandView> {
    seq![
        clippy_command(fix),
        format_command(fix),
        taplo_command(fix),
        typos_command(),
        hawkeye_command(fix),
    ]
}

impl CommandBuild {
    /// `build` runs `cargo build`.
    pub fn run(self) -> (res: Task)
        ensures
            res@ == TaskView::Run(seq![build_command(self.locked)]),
    {
        let mut cmds: Vec<ProcessCommand> = Vec::new();
        cmds.push(make_build_cmd(self.locked));
        assert(commands_view(cmds@) =~= seq![build_command(self.locked)]);
        Task::Run(cmds)
    }
}

impl CommandTest {
    /// `test` runs `cargo test` with the default features and no feature
    /// list; with `no_capture`, serially and without capturing the output.
    pub fn run(self) -> (res: Task)
        ensures
            res@ == TaskView::Run(seq![serial_test_command(self.no_capture)]),
    {
        let mut cmds: Vec<ProcessCommand> = Vec::new();
        cmds.push(make_serial_test_cmd(self.no_capture));
        assert(commands_view(cmds@) =~= seq![serial_test_command(self.no_capture)]);
        Task::Run(cmds)
    }
}

impl CommandLint {
    /// `lint` runs the five checkers of `lint_commands`, in that order.
    pub fn run(self) -> (res: Task)
        ensures
            res@ == TaskView::Run(lint_commands(self.fix)),
    {
        let mut cmds: Vec<ProcessCommand> = Vec::new();
        cmds.push(make_clippy_cmd(self.fix));
        cmds.push(make_format_cmd(self.fix));
        cmds.push(make_taplo_cmd(self.fix));
        cmds.push(make_typos_cmd());
        cmds.push(make_hawkeye_cmd(self.fix));
        assert(commands_view(cmds@) =~= lint_commands(self.fix));
        Task::Run(cmds)
    }
}

impl CommandBootstrap {
    /// `bootstrap` asks for the interactive bootstrap with the given inputs.
    pub fn run(self) -> (res: Task)
        ensures
            res@ == TaskView::Bootstrap(opt_view(self.project_name), opt_view(self.github_account)),
    {
        Task::Bootstrap { project_name: self.project_name, github_account: self.github_account }
    }
}

/// What the subcommand of the command line asks for.
pub open spec fn subcommand_task(sub: SubCommand) -> TaskView {
    match sub {
        SubCommand::Build(c) => TaskView::Run(seq![build_command(c.locked)]),
        SubCommand::Bootstrap(c) => TaskView::Bootstrap(
            opt_view(c.project_name),
            opt_view(c.github_account),
        ),
        SubCommand::Lint(c) => TaskView::Run(lint_commands(c.fix)),
        SubCommand::Test(c) => TaskView::Run(seq![serial_test_command(c.no_capture)]),
    }
}

impl Command {
    /// What the chosen subcommand asks for.
    pub fn run(self) -> (res: Task)
        ensures
            res@ == subcommand_task(self.sub),
            self.sub matches SubCommand::Build(c) ==> res@ == TaskView::Run(
                seq![build_command(c.locked)],
            ),
            self.sub matches SubCommand::Lint(c) ==> res@ == TaskView::Run(lint_commands(c.fix)),
            self.sub matches SubCommand::Test(c) ==> res@ == TaskView::Run(
                seq![serial_test_command(c.no_capture)],
            ),
            self.sub matches SubCommand::Bootstrap(c) ==> res@ == TaskView::Bootstrap(
                opt_view(c.project_name),
                opt_view(c.github_account),
            ),
    {
        match self.sub {
            SubCommand::Build(cmd) => cmd.run(),
            SubCommand::Bootstrap(cmd) => cmd.run(),
            SubCommand::Lint(cmd) => cmd.run(),
            SubCommand::Test(cmd) => cmd.run(),
        }
    }
}


/// Dispatching a subcommand asks for what running that subcommand directly
/// asks for; for `build` that is the one `cargo build` over the workspace,
/// with `--locked` at the end exactly when it was given.
pub proof fn law_dispatch_is_direct_run(sub: SubCommand)
    ensures
        sub matches SubCommand::Build(c) ==> subcommand_task(sub) == TaskView::Run(
            seq![build_command(c.locked)],
        ) && build_command(c.locked) == (ProcessCommandView {
            program: "cargo"@,
            args: seq![
                "build"@,
                "--workspace"@,
                "--all-features"@,
                "--tests"@,
                "--examples"@,
                "--benches"@,
                "--bins"@,
            ] + if c.locked {
                seq!["--locked"@]
            } else {
                seq![]
            },
            install: None,
        }),
        sub matches SubCommand::Lint(c) ==> subcommand_task(sub) == TaskView::Run(
            lint_commands(c.fix),
        ),
        sub matches SubCommand::Test(c) ==> subcommand_task(sub) == TaskView::Run(
            seq![serial_test_command(c.no_capture)],
        ),
        sub matches SubCommand::Bootstrap(c) ==> subcommand_task(sub) == TaskView::Bootstrap(
            opt_view(c.project_name),
            opt_view(c.github_account),
        ),
{
}

/// `lint` hands the caller's fix flag to every checker but `typos`: clippy
/// applies its fixes or denies warnings, rustfmt formats or only checks
/// (`--check` exactly when not fixing), taplo formats or only checks, hawkeye
/// formats or checks, and `typos` only reports, in that order.
pub proof fn law_lint_passes_fix_flag(fix: bool)
    ensures
        lint_commands(fix).len() == 5,
        lint_commands(fix)[0] == (ProcessCommandView {
            program: "cargo"@,
            args: seq!["clippy"@, "--tests"@, "--all-features"@, "--all-targets"@, "--workspace"@]
                + if fix {
                seq!["--allow-staged"@, "--allow-dirty"@, "--fix"@]
            } else {
                seq!["--"@, "-D"@, "warnings"@]
            },
            install: None,
        }),
        lint_commands(fix)[1] == (ProcessCommandView {
            program: "cargo"@,
            args: if fix {
                seq!["fmt"@, "--all"@]
            } else {
                seq!["fmt"@, "--all"@, "--check"@]
            },
            install: None,
        }),
        lint_commands(fix)[2] == (ProcessCommandView {
            program: "taplo"@,
            args: if fix {
                seq!["format"@]
            } else {
                seq!["format"@, "--check"@]
            },
            install: Some(("taplo"@, "taplo-cli"@)),
        }),
        lint_commands(fix)[3] == (ProcessCommandView {
            program: "typos"@,
            args: seq![],
            install: Some(("typos"@, "typos-cli"@)),
        }),
        lint_commands(fix)[4] == (ProcessCommandView {
            program: "hawkeye"@,
            args: if fix {
                seq!["format"@, "--fail-if-updated=false"@]
            } else {
                seq!["check"@]
            },
            install: Some(("hawkeye"@, "hawkeye"@)),
        }),
{
    assert(format_command(fix).args =~= if fix {
        seq!["fmt"@, "--all"@]
    } else {
        seq!["fmt"@, "--all"@, "--check"@]
    });
}

} // verus!
