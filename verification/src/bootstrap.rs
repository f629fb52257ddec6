//! The decisions of the bootstrap step: whether it may run here, which input
//! is still missing, whether the user confirmed, and which files change how.

use vstd::prelude::*;
use crate::text::{trim_seq, trim_start_seq, trim_end_seq, trim_text, chars_of, lemma_trim_idempotent, law_trim_ignores_line_ending};
use crate::replace::{
    replace_all, contains_seq, replace_in_content, law_replace_with_itself,
    law_replace_absent_is_identity,
};

verus! {

pub open spec fn not_project_root_message() -> Seq<char> {
    "This command must be run from the project root directory"@
}

/// Bootstrapping may only run from the template's root: there `Cargo.toml`
/// exists and `template` is a directory.
pub fn check_project_root(has_cargo_toml: bool, template_is_dir: bool) -> (res: Result<
    (),
    String,
>)
    ensures
        res is Ok <==> has_cargo_toml && template_is_dir,
        res matches Err(e) ==> e@ == not_project_root_message(),
{
    if !has_cargo_toml || !template_is_dir {
        return Err("This command must be run from the project root directory".to_owned());
    }
    Ok(())
}

/// The next step in gathering the project name and the GitHub account.
pub enum InputStep {
    /// Both are known.
    Ready(String, String),
    /// The project name must be asked for; the account is carried along.
    AskProjectName { github_account: Option<String> },
    /// The GitHub account must be asked for; the name is carried along.
    AskGithubAccount { project_name: String },
}

/// Given what is known so far, either both inputs, or which one to ask for
/// next: the project name is asked for before the account.
pub fn prepare_inputs(project_name: Option<String>, github_account: Option<String>) -> (res:
    InputStep)
    ensures
        match (project_name, github_account) {
            (Some(n), Some(a)) => res matches InputStep::Ready(n2, a2) && n2@ == n@ && a2@ == a@,
            (None, a) => res matches InputStep::AskProjectName { github_account: a2 } && a2 == a,
            (Some(n), None) => res matches InputStep::AskGithubAccount { project_name: n2 } && n2
                == n,
        },
{
    match (project_name, github_account) {
        (Some(n), Some(a)) => InputStep::Ready(n, a),
        (None, a) => InputStep::AskProjectName { github_account: a },
        (Some(n), None) => InputStep::AskGithubAccount { project_name: n },
    }
}

/// What `str::to_lowercase` gives for a string (the Unicode lower-case
/// mapping, which is deterministic and independent of the locale).
pub uninterp spec fn lowercase(s: Seq<char>) -> Seq<char>;

/// An ASCII character in lower case: `A`..=`Z` become `a`..=`z`.
pub open spec fn ascii_lower(c: char) -> char {
    if 'A' <= c <= 'Z' {
        ((c as u32) + 32) as char
    } else {
        c
    }
}

/// Calls `str::to_lowercase`. The contract claims that the result is
/// `lowercase` of the argument's characters, a function of them alone, and
/// that on an all-ASCII string this is the ASCII lower-case mapping, character
/// for character; the Unicode mapping of other characters is left unsaid.
#[verifier::external_body]
fn to_lowercase(s: &str) -> (res: String)
    ensures
        res@ == lowercase(s@),
        (forall|i: int| 0 <= i < s@.len() ==> (#[trigger] s@[i] as u32) < 128) ==> res@
            == s@.map_values(|c: char| ascii_lower(c)),
{
    s.to_lowercase()
}

/// An answer that means yes: `y` or `yes`.
pub open spec fn is_affirmative(answer: Seq<char>) -> bool {
    answer == seq!['y'] || answer == seq!['y', 'e', 's']
}

/// Whether an answer, already trimmed and lower-cased, means yes.
pub fn is_affirmative_answer(answer: &str) -> (res: bool)
    ensures
        res == is_affirmative(answer@),
{
    let v = chars_of(answer);
    if v.len() == 1 && v[0] == 'y' {
        assert(v@ =~= seq!['y']);
        return true;
    }
    if v.len() == 3 && v[0] == 'y' && v[1] == 'e' && v[2] == 's' {
        assert(v@ =~= seq!['y', 'e', 's']);
        return true;
    }
    proof {
        if v@ == seq!['y'] {
            assert(v@[0] == seq!['y'][0]);
        }
        if v@ == seq!['y', 'e', 's'] {
            assert(v@[0] == seq!['y', 'e', 's'][0] && v@[1] == seq!['y', 'e', 's'][1] && v@[2]
                == seq!['y', 'e', 's'][2]);
        }
    }
    false
}

/// Whether the line the user typed at the confirmation prompt means yes:
/// trimmed and lower-cased, it must read `y` or `yes`.
pub fn confirm_answer(input: &str) -> (res: bool)
    ensures
        res == is_affirmative(lowercase(trim_seq(input@))),
        (forall|i: int|
            0 <= i < trim_seq(input@).len() ==> (#[trigger] trim_seq(input@)[i] as u32) < 128)
            ==> res == is_affirmative(trim_seq(input@).map_values(|c: char| ascii_lower(c))),
{
    let trimmed = trim_text(input);
    let lowered = to_lowercase(trimmed.as_str());
    is_affirmative_answer(lowered.as_str())
}


/// Replace every occurrence of `old` by `new`.
pub struct Replacement {
    pub old: String,
    pub new: String,
}

/// The replacements to make in one file, one after another.
pub struct FileUpdate {
    pub path: String,
    pub edits: Vec<Replacement>,
}

/// The model of a `FileUpdate`: the path, and each replacement as the pair
/// (old, new).
pub struct FileUpdateView {
    pub path: Seq<char>,
    pub edits: Seq<(Seq<char>, Seq<char>)>,
}

impl View for Replacement {
    type V = (Seq<char>, Seq<char>);

    open spec fn view(&self) -> (Seq<char>, Seq<char>) {
        (self.old@, self.new@)
    }
}

impl View for FileUpdate {
    type V = FileUpdateView;

    open spec fn view(&self) -> FileUpdateView {
        FileUpdateView { path: self.path@, edits: self.edits@.map_values(|r: Replacement| r@) }
    }
}

/// One step of the bootstrap: update a file, or rename a directory.
pub enum BootstrapStep {
    Update(FileUpdate),
    RenameDir { from: String, to: String },
}

/// The model of a `BootstrapStep`.
pub enum BootstrapStepView {
    Update(FileUpdateView),
    RenameDir(Seq<char>, Seq<char>),
}

impl View for BootstrapStep {
    type V = BootstrapStepView;

    open spec fn view(&self) -> BootstrapStepView {
        match self {
            BootstrapStep::Update(u) => BootstrapStepView::Update(u@),
            BootstrapStep::RenameDir { from, to } => BootstrapStepView::RenameDir(from@, to@),
        }
    }
}

/// `Cargo.toml`: the GitHub owner `/fast` becomes `/<account>`, then
/// `template` becomes the project name.
pub open spec fn root_cargo_toml_update(name: Seq<char>, account: Seq<char>) -> FileUpdateView {
    FileUpdateView {
        path: "Cargo.toml"@,
        edits: seq![("/fast"@, "/"@ + account), ("template"@, name)],
    }
}

/// `template/Cargo.toml`: `template` becomes the project name.
pub open spec fn project_cargo_toml_update(name: Seq<char>) -> FileUpdateView {
    FileUpdateView { path: "template/Cargo.toml"@, edits: seq![("template"@, name)] }
}

/// `README.md`: `/fast` becomes `/<account>`, then `/template` becomes
/// `/<name>`.
pub open spec fn readme_update(name: Seq<char>, account: Seq<char>) -> FileUpdateView {
    FileUpdateView {
        path: "README.md"@,
        edits: seq![("/fast"@, "/"@ + account), ("/template"@, "/"@ + name)],
    }
}

/// `.github/semantic.yml`: `/fast/template` becomes `/<account>/<name>`.
pub open spec fn semantic_yml_update(name: Seq<char>, account: Seq<char>) -> FileUpdateView {
    FileUpdateView {
        path: ".github/semantic.yml"@,
        edits: seq![("/fast/template"@, "/"@ + account + "/"@ + name)],
    }
}

/// `Cargo.lock`: `template` becomes the project name.
pub open spec fn cargo_lock_update(name: Seq<char>) -> FileUpdateView {
    FileUpdateView { path: "Cargo.lock"@, edits: seq![("template"@, name)] }
}

/// Every step of the bootstrap, in the order in which they run.
pub open spec fn bootstrap_steps(name: Seq<char>, account: Seq<char>) -> Seq<BootstrapStepView> {
    seq![
        BootstrapStepView::Update(root_cargo_toml_update(name, account)),
        BootstrapStepView::Update(project_cargo_toml_update(name)),
        BootstrapStepView::Update(readme_update(name, account)),
        BootstrapStepView::Update(semantic_yml_update(name, account)),
        BootstrapStepView::Update(cargo_lock_update(name)),
        BootstrapStepView::RenameDir("template"@, name),
    ]
}

/// A replacement of `old` by `new`.
fn replacement(old: &str, new: &str) -> (res: Replacement)
    ensures
        res@ == (old@, new@),
{
    Replacement { old: old.to_owned(), new: new.to_owned() }
}

/// `/` followed by `s`.
fn slash(s: &str) -> (res: String)
    ensures
        res@ == "/"@ + s@,
{
    let mut res = "/".to_owned();
    res.append(s);
    res
}

/// The replacements in the workspace's `Cargo.toml` (see `root_cargo_toml_update`).
pub fn update_root_cargo_toml(project_name: &str, github_account: &str) -> (res: FileUpdate)
    ensures
        res@ == root_cargo_toml_update(project_name@, github_account@),
{
    let owner = slash(github_account);
    let edits = vec![replacement("/fast", owner.as_str()), replacement("template", project_name)];
    let res = FileUpdate { path: "Cargo.toml".to_owned(), edits };
    assert(res@.edits =~= root_cargo_toml_update(project_name@, github_account@).edits);
    res
}

/// The replacement in the template crate's `Cargo.toml`.
pub fn update_project_cargo_toml(project_name: &str) -> (res: FileUpdate)
    ensures
        res@ == project_cargo_toml_update(project_name@),
{
    let edits = vec![replacement("template", project_name)];
    let res = FileUpdate { path: "template/Cargo.toml".to_owned(), edits };
    assert(res@.edits =~= project_cargo_toml_update(project_name@).edits);
    res
}

/// The replacements in `README.md` (see `readme_update`).
pub fn update_readme(project_name: &str, github_account: &str) -> (res: FileUpdate)
    ensures
        res@ == readme_update(project_name@, github_account@),
{
    let owner = slash(github_account);
    let repo = slash(project_name);
    let edits = vec![replacement("/fast", owner.as_str()), replacement("/template", repo.as_str())];
    let res = FileUpdate { path: "README.md".to_owned(), edits };
    assert(res@.edits =~= readme_update(project_name@, github_account@).edits);
    res
}

/// The replacement in `.github/semantic.yml` (see `semantic_yml_update`).
pub fn update_semantic_yml(project_name: &str, github_account: &str) -> (res: FileUpdate)
    ensures
        res@ == semantic_yml_update(project_name@, github_account@),
{
    let mut full = slash(github_account);
    let repo = slash(project_name);
    full.append(repo.as_str());
    assert(full@ =~= "/"@ + github_account@ + "/"@ + project_name@);
    let edits = vec![replacement("/fast/template", full.as_str())];
    let res = FileUpdate { path: ".github/semantic.yml".to_owned(), edits };
    assert(res@.edits =~= semantic_yml_update(project_name@, github_account@).edits);
    res
}

/// The replacement in `Cargo.lock`.
pub fn update_cargo_lock(project_name: &str) -> (res: FileUpdate)
    ensures
        res@ == cargo_lock_update(project_name@),
{
    let edits = vec![replacement("template", project_name)];
    let res = FileUpdate { path: "Cargo.lock".to_owned(), edits };
    assert(res@.edits =~= cargo_lock_update(project_name@).edits);
    res
}

/// The template directory is renamed to the project name.
pub fn update_project_dir(project_name: &str) -> (res: BootstrapStep)
    ensures
        res@ == BootstrapStepView::RenameDir("template"@, project_name@),
{
    BootstrapStep::RenameDir { from: "template".to_owned(), to: project_name.to_owned() }
}

/// Every step of the bootstrap for the given project name and account.
pub fn execute_bootstrap(project_name: &str, github_account: &str) -> (res: Vec<BootstrapStep>)
    ensures
        res@.map_values(|s: BootstrapStep| s@) == bootstrap_steps(project_name@, github_account@),
{
    let res = vec![
        BootstrapStep::Update(update_root_cargo_toml(project_name, github_account)),
        BootstrapStep::Update(update_project_cargo_toml(project_name)),
        BootstrapStep::Update(update_readme(project_name, github_account)),
        BootstrapStep::Update(update_semantic_yml(project_name, github_account)),
        BootstrapStep::Update(update_cargo_lock(project_name)),
        update_project_dir(project_name),
    ];
    assert(res@.map_values(|s: BootstrapStep| s@) =~= bootstrap_steps(
        project_name@,
        github_account@,
    ));
    res
}


/// Bootstrapping with the template's own name (`template`) and owner
/// (`fast`) changes nothing: every replacement puts back what it takes out,
/// so no file's text changes, and the directory keeps its name.
pub proof fn law_bootstrap_as_template_changes_nothing(content: Seq<char>)
    ensures
        forall|i: int|
            0 <= i < bootstrap_steps("template"@, "fast"@).len() ==> match #[trigger] bootstrap_steps(
                "template"@,
                "fast"@,
            )[i] {
                BootstrapStepView::Update(u) => forall|j: int|
                    0 <= j < u.edits.len() ==> replace_all(content, #[trigger] u.edits[j].0, u.edits[j].1)
                        == content,
                BootstrapStepView::RenameDir(from, to) => from == to,
            },
{
    reveal_strlit("/");
    reveal_strlit("fast");
    reveal_strlit("/fast");
    reveal_strlit("template");
    reveal_strlit("/template");
    reveal_strlit("/fast/template");
    assert("/"@ + "fast"@ =~= "/fast"@);
    assert("/"@ + "template"@ =~= "/template"@);
    assert("/"@ + "fast"@ + "/"@ + "template"@ =~= "/fast/template"@);
    law_replace_with_itself(content, "/fast"@);
    law_replace_with_itself(content, "template"@);
    law_replace_with_itself(content, "/template"@);
    law_replace_with_itself(content, "/fast/template"@);
}


/// White space around the answer does not change whether it is taken as a
/// yes: the trimmed answer is judged as the answer itself.
pub proof fn law_confirmation_ignores_surrounding_space(input: Seq<char>)
    ensures
        is_affirmative(lowercase(trim_seq(trim_seq(input)))) == is_affirmative(
            lowercase(trim_seq(input)),
        ),
{
    lemma_trim_idempotent(input);
}


/// `content` once the replacements `edits` are made one after another, each
/// on the text that the previous ones left.
pub open spec fn apply_edits(content: Seq<char>, edits: Seq<(Seq<char>, Seq<char>)>) -> Seq<char>
    decreases edits.len(),
{
    if edits.len() == 0 {
        content
    } else {
        apply_edits(replace_all(content, edits[0].0, edits[0].1), edits.drop_first())
    }
}

/// Whether some replacement of `edits`, made in order, finds what it replaces
/// in the text it is made on; where none does, the file is not written.
pub open spec fn edits_touch(content: Seq<char>, edits: Seq<(Seq<char>, Seq<char>)>) -> bool
    decreases edits.len(),
{
    edits.len() > 0 && (contains_seq(content, edits[0].0) || edits_touch(
        replace_all(content, edits[0].0, edits[0].1),
        edits.drop_first(),
    ))
}

/// The new text of a file whose text is `content` once `update` is made:
/// its replacements one after another; `None` where none of them finds what
/// it replaces, in which case the file is left as it is.
pub fn updated_text(content: &str, update: &FileUpdate) -> (res: Option<String>)
    ensures
        res is None <==> !edits_touch(content@, update@.edits),
        res matches Some(t) ==> t@ == apply_edits(content@, update@.edits),
{
    let ghost es = update@.edits;
    let mut text = content.to_owned();
    let mut touched = false;
    let n = update.edits.len();
    let mut i: usize = 0;
    assert(es.skip(0) == es);
    while i < n
        invariant
            n == update.edits.len(),
            es == update@.edits,
            es.len() == n,
            i <= n,
            apply_edits(content@, es) == apply_edits(text@, es.skip(i as int)),
            edits_touch(content@, es) == (touched || edits_touch(text@, es.skip(i as int))),
        decreases n - i,
    {
        let edit = &update.edits[i];
        assert(es[i as int] == (edit.old@, edit.new@));
        assert(es.skip(i as int)[0] == es[i as int]);
        assert(es.skip(i as int).drop_first() == es.skip(i + 1));
        match replace_in_content(text.as_str(), edit.old.as_str(), edit.new.as_str()) {
            None => {
                proof {
                    law_replace_absent_is_identity(text@, edit.old@, edit.new@);
                }
            },
            Some(r) => {
                text = r;
                touched = true;
            },
        }
        i = i + 1;
    }
    if touched {
        Some(text)
    } else {
        None
    }
}


/// A line ending after the answer (`\n`, or `\r\n` on Windows) does not
/// change whether it is taken as a yes; `y` and `yes` followed by either are
/// a yes.
pub proof fn law_confirmation_ignores_line_ending(input: Seq<char>)
    ensures
        is_affirmative(lowercase(trim_seq(input + seq!['\r', '\n']))) == is_affirmative(
            lowercase(trim_seq(input)),
        ),
        trim_seq(seq!['y', '\r', '\n']) == seq!['y'],
        trim_seq(seq!['y', 'e', 's', '\r', '\n']) == seq!['y', 'e', 's'],
{
    law_trim_ignores_line_ending(input);
    law_trim_ignores_line_ending(seq!['y']);
    law_trim_ignores_line_ending(seq!['y', 'e', 's']);
    assert(seq!['y'] + seq!['\r', '\n'] =~= seq!['y', '\r', '\n']);
    assert(seq!['y', 'e', 's'] + seq!['\r', '\n'] =~= seq!['y', 'e', 's', '\r', '\n']);
    reveal_with_fuel(trim_start_seq, 2);
    reveal_with_fuel(trim_end_seq, 2);
    assert(trim_seq(seq!['y']) =~= seq!['y']);
    assert(seq!['y', 'e', 's'].drop_first() =~= seq!['e', 's']);
    assert(trim_seq(seq!['y', 'e', 's']) =~= seq!['y', 'e', 's']);
}


/// The bootstrap for a project `name` owned by `account`, step by step: in
/// `Cargo.toml` the owner `/fast` becomes `/<account>` and then `template`
/// becomes the name; in `template/Cargo.toml` `template` becomes the name; in
/// `README.md` `/fast` becomes `/<account>` and then `/template` becomes
/// `/<name>`; in `.github/semantic.yml` `/fast/template` becomes
/// `/<account>/<name>`; in `Cargo.lock` `template` becomes the name; last,
/// the `template` directory is renamed to the name.
pub proof fn law_bootstrap_plan(name: Seq<char>, account: Seq<char>)
    ensures
        bootstrap_steps(name, account).len() == 6,
        bootstrap_steps(name, account)[0] == BootstrapStepView::Update(
            FileUpdateView {
                path: seq!['C', 'a', 'r', 'g', 'o', '.', 't', 'o', 'm', 'l'],
                edits: seq![
                    (seq!['/', 'f', 'a', 's', 't'], seq!['/'] + account),
                    (seq!['t', 'e', 'm', 'p', 'l', 'a', 't', 'e'], name),
                ],
            },
        ),
        bootstrap_steps(name, account)[1] == BootstrapStepView::Update(
            FileUpdateView {
                path: seq!['t', 'e', 'm', 'p', 'l', 'a', 't', 'e', '/'] + seq![
                    'C',
                    'a',
                    'r',
                    'g',
                    'o',
                    '.',
                    't',
                    'o',
                    'm',
                    'l',
                ],
                edits: seq![(seq!['t', 'e', 'm', 'p', 'l', 'a', 't', 'e'], name)],
            },
        ),
        bootstrap_steps(name, account)[2] == BootstrapStepView::Update(
            FileUpdateView {
                path: seq!['R', 'E', 'A', 'D', 'M', 'E', '.', 'm', 'd'],
                edits: seq![
                    (seq!['/', 'f', 'a', 's', 't'], seq!['/'] + account),
                    (seq!['/', 't', 'e', 'm', 'p', 'l', 'a', 't', 'e'], seq!['/'] + name),
                ],
            },
        ),
        bootstrap_steps(name, account)[3] == BootstrapStepView::Update(
            FileUpdateView {
                path: seq!['.', 'g', 'i', 't', 'h', 'u', 'b', '/'] + seq![
                    's',
                    'e',
                    'm',
                    'a',
                    'n',
                    't',
                    'i',
                    'c',
                    '.',
                    'y',
                    'm',
                    'l',
                ],
                edits: seq![
                    (
                        seq!['/', 'f', 'a', 's', 't', '/', 't', 'e', 'm', 'p', 'l', 'a', 't', 'e'],
                        seq!['/'] + account + seq!['/'] + name,
                    ),
                ],
            },
        ),
        bootstrap_steps(name, account)[4] == BootstrapStepView::Update(
            FileUpdateView {
                path: seq!['C', 'a', 'r', 'g', 'o', '.', 'l', 'o', 'c', 'k'],
                edits: seq![(seq!['t', 'e', 'm', 'p', 'l', 'a', 't', 'e'], name)],
            },
        ),
        bootstrap_steps(name, account)[5] == BootstrapStepView::RenameDir(
            seq!['t', 'e', 'm', 'p', 'l', 'a', 't', 'e'],
            name,
        ),
{
    reveal_strlit("Cargo.toml");
    reveal_strlit("template/Cargo.toml");
    reveal_strlit("README.md");
    reveal_strlit(".github/semantic.yml");
    reveal_strlit("Cargo.lock");
    reveal_strlit("/");
    reveal_strlit("/fast");
    reveal_strlit("template");
    reveal_strlit("/template");
    reveal_strlit("/fast/template");
    assert("Cargo.toml"@ =~= seq!['C', 'a', 'r', 'g', 'o', '.', 't', 'o', 'm', 'l']);
    assert("template/Cargo.toml"@ =~= seq!['t', 'e', 'm', 'p', 'l', 'a', 't', 'e', '/'] + seq![
        'C',
        'a',
        'r',
        'g',
        'o',
        '.',
        't',
        'o',
        'm',
        'l',
    ]);
    assert("README.md"@ =~= seq!['R', 'E', 'A', 'D', 'M', 'E', '.', 'm', 'd']);
    assert(".github/semantic.yml"@ =~= seq!['.', 'g', 'i', 't', 'h', 'u', 'b', '/'] + seq![
        's',
        'e',
        'm',
        'a',
        'n',
        't',
        'i',
        'c',
        '.',
        'y',
        'm',
        'l',
    ]);
    assert("Cargo.lock"@ =~= seq!['C', 'a', 'r', 'g', 'o', '.', 'l', 'o', 'c', 'k']);
    assert("/"@ =~= seq!['/']);
    assert("/fast"@ =~= seq!['/', 'f', 'a', 's', 't']);
    assert("template"@ =~= seq!['t', 'e', 'm', 'p', 'l', 'a', 't', 'e']);
    assert("/template"@ =~= seq!['/', 't', 'e', 'm', 'p', 'l', 'a', 't', 'e']);
    assert("/fast/template"@ =~= seq![
        '/',
        'f',
        'a',
        's',
        't',
        '/',
        't',
        'e',
        'm',
        'p',
        'l',
        'a',
        't',
        'e',
    ]);
}


/// A file's replacements are made in the order listed, each on the text the
/// earlier ones left: one replacement is just that replacement, and making a
/// list of them is making its first part and then its second part.
pub proof fn law_edits_apply_in_order(
    content: Seq<char>,
    first: Seq<(Seq<char>, Seq<char>)>,
    second: Seq<(Seq<char>, Seq<char>)>,
    old: Seq<char>,
    new: Seq<char>,
)
    ensures
        apply_edits(content, seq![(old, new)]) == replace_all(content, old, new),
        apply_edits(content, first + second) == apply_edits(apply_edits(content, first), second),
    decreases first.len(),
{
    let one = seq![(old, new)];
    assert(one.drop_first() =~= Seq::<(Seq<char>, Seq<char>)>::empty());
    assert(apply_edits(replace_all(content, old, new), Seq::<(Seq<char>, Seq<char>)>::empty())
        == replace_all(content, old, new));
    assert(apply_edits(content, one) == apply_edits(replace_all(content, one[0].0, one[0].1), one.drop_first()));
    if first.len() > 0 {
        assert((first + second)[0] == first[0]);
        assert((first + second).drop_first() =~= first.drop_first() + second);
        law_edits_apply_in_order(
            replace_all(content, first[0].0, first[0].1),
            first.drop_first(),
            second,
            old,
            new,
        );
    } else {
        assert(first + second =~= second);
    }
}

/// The answers taken as yes are exactly `y` and `yes`, and an answer in
/// ASCII is compared without regard to case.
pub proof fn law_yes_answers(answer: Seq<char>)
    ensures
        is_affirmative(answer) <==> (answer == seq!['y'] || answer == seq!['y', 'e', 's']),
        ascii_lower('Y') == 'y',
        ascii_lower('E') == 'e',
        ascii_lower('S') == 's',
        ascii_lower('y') == 'y',
{
}

} // verus!
