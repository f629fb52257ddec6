//! The external commands that the build, test and lint tasks run, each
//! described as a program, its arguments and the tool it needs installed.

use vstd::prelude::*;

verus! {

/// A tool that must be on the `PATH` before a command runs: the binary to look
/// for, and the crate that `cargo install` installs it from.
pub struct ToolInstall {
    pub bin: String,
    pub crate_name: String,
}

/// One external command: the program, its arguments in order, and the tool
/// installation that must be ensured first, if any.
pub struct ProcessCommand {
    pub program: String,
    pub args: Vec<String>,
    pub install: Option<ToolInstall>,
}

/// The model of a `ProcessCommand`.
pub struct ProcessCommandView {
    pub program: Seq<char>,
    pub args: Seq<Seq<char>>,
    pub install: Option<(Seq<char>, Seq<char>)>,
}

/// The strings of `v`, taken by their views.
pub open spec fn strings_view(v: Seq<String>) -> Seq<Seq<char>> {
    v.map_values(|s: String| s@)
}

impl View for ProcessCommand {
    type V = ProcessCommandView;

    open spec fn view(&self) -> ProcessCommandView {
        ProcessCommandView {
            program: self.program@,
            args: strings_view(self.args@),
            install: match self.install {
                Some(t) => Some((t.bin@, t.crate_name@)),
                None => None,
            },
        }
    }
}

/// The commands of `v`, taken by their views.
pub open spec fn commands_view(v: Seq<ProcessCommand>) -> Seq<ProcessCommandView> {
    v.map_values(|c: ProcessCommand| c@)
}

/// `list` joined with `sep` between neighbours.
pub open spec fn seq_join(list: Seq<Seq<char>>, sep: Seq<char>) -> Seq<char>
    decreases list.len(),
{
    if list.len() == 0 {
        seq![]
    } else if list.len() == 1 {
        list[0]
    } else {
        seq_join(list.drop_last(), sep) + sep + list.last()
    }
}

pub open spec fn cargo_command(args: Seq<Seq<char>>) -> ProcessCommandView {
    ProcessCommandView { program: "cargo"@, args, install: None }
}

/// `cargo build` over the whole workspace, with `--locked` when asked.
pub open spec fn build_command(locked: bool) -> ProcessCommandView {
    cargo_command(
        seq![
            "build"@,
            "--workspace"@,
            "--all-features"@,
            "--tests"@,
            "--examples"@,
            "--benches"@,
            "--bins"@,
        ] + if locked {
            seq!["--locked"@]
        } else {
            seq![]
        },
    )
}

/// `cargo test` over the workspace, with the default features switched off
/// when asked, the listed features joined by commas, and the test output
/// left uncaptured when asked.
pub open spec fn test_command(
    no_capture: bool,
    default_features: bool,
    features: Seq<Seq<char>>,
) -> ProcessCommandView {
    cargo_command(
        seq!["test"@, "--workspace"@] + (if !default_features {
            seq!["--no-default-features"@]
        } else {
            seq![]
        }) + (if features.len() > 0 {
            seq!["--features"@, seq_join(features, ","@)]
        } else {
            seq![]
        }) + (if no_capture {
            seq!["--"@, "--nocapture"@]
        } else {
            seq![]
        }),
    )
}

/// The `cargo test` that the `test` task runs: the default features, no
/// feature list, and, when the output is not to be captured, the tests run
/// one at a time (`--test-threads=1` after `--nocapture`).
pub open spec fn serial_test_command(no_capture: bool) -> ProcessCommandView {
    cargo_command(
        test_command(no_capture, true, seq![]).args + if no_capture {
            seq!["--test-threads=1"@]
        } else {
            seq![]
        },
    )
}

/// `cargo fmt --all`, only checking unless asked to fix.
pub open spec fn format_command(fix: bool) -> ProcessCommandView {
    cargo_command(
        seq!["fmt"@, "--all"@] + if !fix {
            seq!["--check"@]
        } else {
            seq![]
        },
    )
}

/// `cargo clippy` over everything; it applies its fixes when asked, and
/// otherwise turns warnings into errors.
pub open spec fn clippy_command(fix: bool) -> ProcessCommandView {
    cargo_command(
        seq!["clippy"@, "--tests"@, "--all-features"@, "--all-targets"@, "--workspace"@]
            + if fix {
            seq!["--allow-staged"@, "--allow-dirty"@, "--fix"@]
        } else {
            seq!["--"@, "-D"@, "warnings"@]
        },
    )
}

/// `hawkeye`, installed from the `hawkeye` crate if missing; formats the
/// license headers when asked, checks them otherwise.
pub open spec fn hawkeye_command(fix: bool) -> ProcessCommandView {
    ProcessCommandView {
        program: "hawkeye"@,
        args: if fix {
            seq!["format"@, "--fail-if-updated=false"@]
        } else {
            seq!["check"@]
        },
        install: Some(("hawkeye"@, "hawkeye"@)),
    }
}

/// `typos` with no arguments, installed from the `typos-cli` crate if missing.
pub open spec fn typos_command() -> ProcessCommandView {
    ProcessCommandView { program: "typos"@, args: seq![], install: Some(("typos"@, "typos-cli"@)) }
}

/// `taplo format`, installed from the `taplo-cli` crate if missing; only
/// checking unless asked to fix.
pub open spec fn taplo_command(fix: bool) -> ProcessCommandView {
    ProcessCommandView {
        program: "taplo"@,
        args: if fix {
            seq!["format"@]
        } else {
            seq!["format"@, "--check"@]
        },
        install: Some(("taplo"@, "taplo-cli"@)),
    }
}

/// Appends `arg` to an argument list.
fn push_arg(args: &mut Vec<String>, arg: &str)
    ensures
        strings_view(final(args)@) == strings_view(old(args)@).push(arg@),
{
    let ghost before = args@;
    args.push(arg.to_owned());
    assert(strings_view(args@) =~= strings_view(before).push(arg@));
}

/// A `cargo` command with the given arguments and no installation.
fn cargo(args: Vec<String>) -> (res: ProcessCommand)
    ensures
        res@ == cargo_command(strings_view(args@)),
{
    ProcessCommand { program: "cargo".to_owned(), args, install: None }
}

/// `cargo build` (see `build_command`).
pub fn make_build_cmd(locked: bool) -> (res: ProcessCommand)
    ensures
        res@ == build_command(locked),
{
    let mut args: Vec<String> = Vec::new();
    push_arg(&mut args, "build");
    push_arg(&mut args, "--workspace");
    push_arg(&mut args, "--all-features");
    push_arg(&mut args, "--tests");
    push_arg(&mut args, "--examples");
    push_arg(&mut args, "--benches");
    push_arg(&mut args, "--bins");
    if locked {
        push_arg(&mut args, "--locked");
    }
    let res = cargo(args);
    assert(res@.args =~= build_command(locked).args);
    res
}


/// The strs of `v`, taken by their views.
pub open spec fn strs_view(v: Seq<&str>) -> Seq<Seq<char>> {
    v.map_values(|s: &str| s@)
}

/// The items of `list` joined with `sep` between neighbours (`[&str]::join`).
pub fn join_strs(list: &[&str], sep: &str) -> (res: String)
    ensures
        res@ == seq_join(strs_view(list@), sep@),
{
    let ghost views = strs_view(list@);
    let mut res = String::new();
    let n = list.len();
    let mut i: usize = 0;
    while i < n
        invariant
            n == list@.len(),
            views == strs_view(list@),
            i <= n,
            res@ == seq_join(views.take(i as int), sep@),
        decreases n - i,
    {
        assert(views.take(i + 1).drop_last() =~= views.take(i as int));
        if i != 0 {
            res.append(sep);
        }
        res.append(list[i]);
        i = i + 1;
    }
    assert(views.take(n as int) =~= views);
    res
}

/// `cargo test` over the workspace (see `test_command`).
pub fn make_test_cmd(no_capture: bool, default_features: bool, features: &[&str]) -> (res:
    ProcessCommand)
    ensures
        res@ == test_command(no_capture, default_features, strs_view(features@)),
{
    let mut args: Vec<String> = Vec::new();
    push_arg(&mut args, "test");
    push_arg(&mut args, "--workspace");
    if !default_features {
        push_arg(&mut args, "--no-default-features");
    }
    if features.len() > 0 {
        push_arg(&mut args, "--features");
        let joined = join_strs(features, ",");
        push_arg(&mut args, joined.as_str());
    }
    if no_capture {
        push_arg(&mut args, "--");
        push_arg(&mut args, "--nocapture");
    }
    let res = cargo(args);
    assert(res@.args =~= test_command(no_capture, default_features, strs_view(features@)).args);
    res
}

/// `cargo fmt` (see `format_command`).
pub fn make_format_cmd(fix: bool) -> (res: ProcessCommand)
    ensures
        res@ == format_command(fix),
{
    let mut args: Vec<String> = Vec::new();
    push_arg(&mut args, "fmt");
    push_arg(&mut args, "--all");
    if !fix {
        push_arg(&mut args, "--check");
    }
    let res = cargo(args);
    assert(res@.args =~= format_command(fix).args);
    res
}

/// `cargo clippy` (see `clippy_command`).
pub fn make_clippy_cmd(fix: bool) -> (res: ProcessCommand)
    ensures
        res@ == clippy_command(fix),
{
    let mut args: Vec<String> = Vec::new();
    push_arg(&mut args, "clippy");
    push_arg(&mut args, "--tests");
    push_arg(&mut args, "--all-features");
    push_arg(&mut args, "--all-targets");
    push_arg(&mut args, "--workspace");
    if fix {
        push_arg(&mut args, "--allow-staged");
        push_arg(&mut args, "--allow-dirty");
        push_arg(&mut args, "--fix");
    } else {
        push_arg(&mut args, "--");
        push_arg(&mut args, "-D");
        push_arg(&mut args, "warnings");
    }
    let res = cargo(args);
    assert(res@.args =~= clippy_command(fix).args);
    res
}

/// A command for a tool that must be installed first.
fn installed_tool(program: &str, crate_name: &str, args: Vec<String>) -> (res: ProcessCommand)
    ensures
        res@ == (ProcessCommandView {
            program: program@,
            args: strings_view(args@),
            install: Some((program@, crate_name@)),
        }),
{
    ProcessCommand {
        program: program.to_owned(),
        args,
        install: Some(ToolInstall { bin: program.to_owned(), crate_name: crate_name.to_owned() }),
    }
}

/// `hawkeye` (see `hawkeye_command`).
pub fn make_hawkeye_cmd(fix: bool) -> (res: ProcessCommand)
    ensures
        res@ == hawkeye_command(fix),
{
    let mut args: Vec<String> = Vec::new();
    if fix {
        push_arg(&mut args, "format");
        push_arg(&mut args, "--fail-if-updated=false");
    } else {
        push_arg(&mut args, "check");
    }
    let res = installed_tool("hawkeye", "hawkeye", args);
    assert(res@.args =~= hawkeye_command(fix).args);
    res
}

/// `typos` (see `typos_command`).
pub fn make_typos_cmd() -> (res: ProcessCommand)
    ensures
        res@ == typos_command(),
{
    let args: Vec<String> = Vec::new();
    let res = installed_tool("typos", "typos-cli", args);
    assert(res@.args =~= typos_command().args);
    res
}

/// `taplo` (see `taplo_command`).
pub fn make_taplo_cmd(fix: bool) -> (res: ProcessCommand)
    ensures
        res@ == taplo_command(fix),
{
    let mut args: Vec<String> = Vec::new();
    push_arg(&mut args, "format");
    if !fix {
        push_arg(&mut args, "--check");
    }
    let res = installed_tool("taplo", "taplo-cli", args);
    assert(res@.args =~= taplo_command(fix).args);
    res
}


/// The `cargo test` of the `test` task (see `serial_test_command`).
pub fn make_serial_test_cmd(no_capture: bool) -> (res: ProcessCommand)
    ensures
        res@ == serial_test_command(no_capture),
{
    let features: Vec<&str> = Vec::new();
    let mut res = make_test_cmd(no_capture, true, features.as_slice());
    assert(strs_view(features@) =~= seq![]);
    if no_capture {
        push_arg(&mut res.args, "--test-threads=1");
    }
    assert(res@.args =~= serial_test_command(no_capture).args);
    res
}



/// `join_strs` puts the separator between neighbours and nowhere else: no
/// items give the empty text, one item gives itself, and one more item adds
/// the separator and that item at the end.
pub proof fn law_join_separates_neighbours(list: Seq<Seq<char>>, item: Seq<char>, sep: Seq<char>)
    ensures
        seq_join(Seq::<Seq<char>>::empty(), sep) == Seq::<char>::empty(),
        seq_join(seq![item], sep) == item,
        list.len() > 0 ==> seq_join(list.push(item), sep) == seq_join(list, sep) + sep + item,
{
    assert(list.push(item).drop_last() =~= list);
}

/// The `cargo test` commands: `test --workspace`, then
/// `--no-default-features` when the default features are off, then
/// `--features` and the comma-joined list when there is one, then `--` and
/// `--nocapture` when the output is not captured; the `test` task adds
/// `--test-threads=1` after those, so that the tests run one at a time.
pub proof fn law_test_command_arguments(no_capture: bool, default_features: bool, features: Seq<Seq<char>>)
    ensures
        test_command(no_capture, default_features, features) == (ProcessCommandView {
            program: "cargo"@,
            args: seq!["test"@, "--workspace"@] + (if default_features {
                seq![]
            } else {
                seq!["--no-default-features"@]
            }) + (if features.len() == 0 {
                seq![]
            } else {
                seq!["--features"@, seq_join(features, ","@)]
            }) + (if no_capture {
                seq!["--"@, "--nocapture"@]
            } else {
                seq![]
            }),
            install: None,
        }),
        serial_test_command(no_capture) == (ProcessCommandView {
            program: "cargo"@,
            args: if no_capture {
                seq!["test"@, "--workspace"@, "--"@, "--nocapture"@, "--test-threads=1"@]
            } else {
                seq!["test"@, "--workspace"@]
            },
            install: None,
        }),
{
    assert(serial_test_command(no_capture).args =~= if no_capture {
        seq!["test"@, "--workspace"@, "--"@, "--nocapture"@, "--test-threads=1"@]
    } else {
        seq!["test"@, "--workspace"@]
    });
}

} // verus!
