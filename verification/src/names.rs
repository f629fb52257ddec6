//! Validation of the project name and the GitHub account that the
//! bootstrap step asks for.

use vstd::prelude::*;
use crate::text::{trim_seq, lemma_trim_idempotent, law_trim_ignores_line_ending, chars_of, trim_bounds, string_from_range, push_char};

verus! {

pub open spec fn is_ascii_digit(c: char) -> bool {
    '0' <= c <= '9'
}

pub open spec fn is_ascii_alphabetic(c: char) -> bool {
    ('a' <= c <= 'z') || ('A' <= c <= 'Z')
}

/// What may open a project name: an ASCII letter or `_`.
pub open spec fn is_name_start(c: char) -> bool {
    is_ascii_alphabetic(c) || c == '_'
}

/// What may follow the first character: an ASCII letter or digit, `-` or `_`.
pub open spec fn is_name_char(c: char) -> bool {
    is_ascii_alphabetic(c) || is_ascii_digit(c) || c == '-' || c == '_'
}

/// The first character of `s` that may not stand in a project name, if any.
pub open spec fn first_invalid_char(s: Seq<char>) -> Option<char>
    decreases s.len(),
{
    if s.len() == 0 {
        None
    } else if !is_name_char(s[0]) {
        Some(s[0])
    } else {
        first_invalid_char(s.drop_first())
    }
}

pub open spec fn empty_name_message() -> Seq<char> {
    "project name cannot be empty"@
}

pub open spec fn digit_start_message(c: char) -> Seq<char> {
    "the name cannot start with a digit: '"@.push(c).push('\'')
}

pub open spec fn bad_start_message(c: char) -> Seq<char> {
    "the first character must be a letter or `_`, found: '"@.push(c).push('\'')
}

pub open spec fn invalid_char_message(c: char) -> Seq<char> {
    "invalid character '"@.push(c) + "': only letters, numbers, `-`, or `_` are allowed"@
}

pub open spec fn empty_account_message() -> Seq<char> {
    "GitHub account name cannot be empty"@
}

/// The outcome of checking an already trimmed project name: the name itself,
/// or the message for the first rule that it breaks.
pub open spec fn check_project_name(name: Seq<char>) -> Result<Seq<char>, Seq<char>> {
    if name.len() == 0 {
        Err(empty_name_message())
    } else if is_ascii_digit(name[0]) {
        Err(digit_start_message(name[0]))
    } else if !is_name_start(name[0]) {
        Err(bad_start_message(name[0]))
    } else {
        match first_invalid_char(name.drop_first()) {
            Some(c) => Err(invalid_char_message(c)),
            None => Ok(name),
        }
    }
}

/// The outcome of checking an already trimmed GitHub account name.
pub open spec fn check_github_account(name: Seq<char>) -> Result<Seq<char>, Seq<char>> {
    if name.len() == 0 {
        Err(empty_account_message())
    } else {
        Ok(name)
    }
}

/// A `Result` of strings, taken by the views of its strings.
pub open spec fn result_view(r: Result<String, String>) -> Result<Seq<char>, Seq<char>> {
    match r {
        Ok(v) => Ok(v@),
        Err(e) => Err(e@),
    }
}

/// Whether `v[from..to]` holds a character that may not stand in a project
/// name, and which one comes first.
fn find_invalid_char(v: &Vec<char>, from: usize, to: usize) -> (res: Option<char>)
    requires
        from <= to <= v.len(),
    ensures
        res == first_invalid_char(v@.subrange(from as int, to as int)),
{
    let mut i = from;
    while i < to
        invariant
            from <= i <= to <= v.len(),
            first_invalid_char(v@.subrange(from as int, to as int)) == first_invalid_char(
                v@.subrange(i as int, to as int),
            ),
        decreases to - i,
    {
        let c = v[i];
        if !(('a' <= c && c <= 'z') || ('A' <= c && c <= 'Z') || ('0' <= c && c <= '9') || c
            == '-' || c == '_') {
            return Some(c);
        }
        assert(v@.subrange(i as int, to as int).drop_first() == v@.subrange(i + 1, to as int));
        i = i + 1;
    }
    None
}

/// Validates a project name by Cargo's rules for package names.
///
/// White space around the name is dropped first. The name must then be
/// non-empty, must not start with a digit, must start with an ASCII letter or
/// `_`, and may go on with ASCII letters, digits, `-` and `_` only. The
/// trimmed name is returned, or a message for the first rule it breaks.
pub fn parse_project_name(name: &str) -> (res: Result<String, String>)
    ensures
        result_view(res) == check_project_name(trim_seq(name@)),
        res matches Ok(v) ==> v@ == trim_seq(name@) && v@.len() > 0 && (('a' <= v@[0] <= 'z')
            || ('A' <= v@[0] <= 'Z') || v@[0] == '_') && forall|i: int|
            0 <= i < v@.len() ==> ('a' <= #[trigger] v@[i] <= 'z') || ('A' <= v@[i] <= 'Z') || (
            '0' <= v@[i] <= '9') || v@[i] == '-' || v@[i] == '_',
{
    let v = chars_of(name);
    let (a, b) = trim_bounds(&v);
    let ghost trimmed = v@.subrange(a as int, b as int);
    if a == b {
        return Err("project name cannot be empty".to_owned());
    }
    let ch = v[a];
    if '0' <= ch && ch <= '9' {
        let mut msg = "the name cannot start with a digit: '".to_owned();
        push_char(&mut msg, ch);
        push_char(&mut msg, '\'');
        return Err(msg);
    }
    if !(('a' <= ch && ch <= 'z') || ('A' <= ch && ch <= 'Z') || ch == '_') {
        let mut msg = "the first character must be a letter or `_`, found: '".to_owned();
        push_char(&mut msg, ch);
        push_char(&mut msg, '\'');
        return Err(msg);
    }
    assert(trimmed.drop_first() == v@.subrange(a + 1, b as int));
    match find_invalid_char(&v, a + 1, b) {
        Some(c) => {
            let mut msg = "invalid character '".to_owned();
            push_char(&mut msg, c);
            msg.append("': only letters, numbers, `-`, or `_` are allowed");
            Err(msg)
        },
        None => {
            proof {
                law_project_name_rules(trimmed);
                assert forall|i: int| 0 <= i < trimmed.len() implies ('a' <= #[trigger] trimmed[i]
                    <= 'z') || ('A' <= trimmed[i] <= 'Z') || ('0' <= trimmed[i] <= '9')
                    || trimmed[i] == '-' || trimmed[i] == '_' by {
                    if i > 0 {
                        assert(is_name_char(trimmed[i]));
                    }
                }
            }
            Ok(string_from_range(&v, a, b))
        },
    }
}

/// Validates a GitHub user or organization name: white space around it is
/// dropped, and what is left must not be empty.
pub fn parse_github_account(account_name: &str) -> (res: Result<String, String>)
    ensures
        result_view(res) == check_github_account(trim_seq(account_name@)),
{
    let v = chars_of(account_name);
    let (a, b) = trim_bounds(&v);
    if a == b {
        return Err("GitHub account name cannot be empty".to_owned());
    }
    Ok(string_from_range(&v, a, b))
}


/// `first_invalid_char` finds nothing exactly when every character may stand
/// in a project name.
proof fn lemma_first_invalid_char_none(s: Seq<char>)
    ensures
        first_invalid_char(s) is None <==> forall|i: int| 0 <= i < s.len() ==> is_name_char(#[trigger] s[i]),
    decreases s.len(),
{
    if s.len() > 0 {
        lemma_first_invalid_char_none(s.drop_first());
        if is_name_char(s[0]) && first_invalid_char(s.drop_first()) is None {
            assert forall|i: int| 0 <= i < s.len() implies is_name_char(#[trigger] s[i]) by {
                if i > 0 {
                    assert(s[i] == s.drop_first()[i - 1]);
                }
            }
        }
        if forall|i: int| 0 <= i < s.len() ==> is_name_char(#[trigger] s[i]) {
            assert forall|i: int| 0 <= i < s.drop_first().len() implies is_name_char(
                #[trigger] s.drop_first()[i],
            ) by {
                assert(s.drop_first()[i] == s[i + 1]);
            }
        }
    }
}

/// A trimmed project name is accepted exactly when it is non-empty, starts
/// with an ASCII letter or `_`, and holds only ASCII letters, digits, `-` and
/// `_` after that; an accepted name comes back unchanged.
pub proof fn law_project_name_rules(name: Seq<char>)
    ensures
        check_project_name(name) is Ok <==> (name.len() > 0 && is_name_start(name[0]) && forall|
            i: int,
        | 1 <= i < name.len() ==> is_name_char(#[trigger] name[i])),
        check_project_name(name) is Ok ==> check_project_name(name) == Ok::<Seq<char>, Seq<char>>(
            name,
        ),
{
    if name.len() > 0 {
        lemma_first_invalid_char_none(name.drop_first());
        if forall|i: int| 1 <= i < name.len() ==> is_name_char(#[trigger] name[i]) {
            assert forall|i: int| 0 <= i < name.drop_first().len() implies is_name_char(
                #[trigger] name.drop_first()[i],
            ) by {
                assert(name.drop_first()[i] == name[i + 1]);
            }
        }
        if first_invalid_char(name.drop_first()) is None {
            assert forall|i: int| 1 <= i < name.len() implies is_name_char(#[trigger] name[i]) by {
                assert(name[i] == name.drop_first()[i - 1]);
            }
        }
    }
}

/// White space around the input does not change the outcome: validating the
/// trimmed input gives the same result as validating the input itself.
pub proof fn law_project_name_trim_insensitive(input: Seq<char>)
    ensures
        check_project_name(trim_seq(trim_seq(input))) == check_project_name(trim_seq(input)),
{
    lemma_trim_idempotent(input);
}

/// An accepted project name is accepted again, unchanged, when it is
/// validated a second time.
pub proof fn law_project_name_accepted_is_stable(input: Seq<char>)
    ensures
        check_project_name(trim_seq(input)) matches Ok(v) ==> check_project_name(trim_seq(v))
            == Ok::<Seq<char>, Seq<char>>(v),
{
    lemma_trim_idempotent(input);
    law_project_name_rules(trim_seq(input));
}

/// A GitHub account is accepted exactly when something other than white
/// space is left once it is trimmed, and an accepted account is accepted
/// again, unchanged, when it is validated a second time.
pub proof fn law_github_account_rules(input: Seq<char>)
    ensures
        check_github_account(trim_seq(input)) is Ok <==> trim_seq(input).len() > 0,
        check_github_account(trim_seq(input)) matches Ok(v) ==> check_github_account(trim_seq(v))
            == Ok::<Seq<char>, Seq<char>>(v),
{
    lemma_trim_idempotent(input);
}


/// Every accepted project name is made of ASCII letters, ASCII digits, `-`
/// and `_` only, and starts with an ASCII letter or `_`; in particular an
/// input holding `/`, `.`, `@` or a space anywhere between its first and last
/// non-blank characters is refused.
pub proof fn law_accepted_names_use_package_characters(input: Seq<char>)
    ensures
        check_project_name(trim_seq(input)) matches Ok(v) ==> v == trim_seq(input) && v.len() > 0
            && (('a' <= v[0] <= 'z') || ('A' <= v[0] <= 'Z') || v[0] == '_') && forall|i: int|
            0 <= i < v.len() ==> ('a' <= #[trigger] v[i] <= 'z') || ('A' <= v[i] <= 'Z') || ('0'
            <= v[i] <= '9') || v[i] == '-' || v[i] == '_',
        (exists|i: int|
            0 <= i < trim_seq(input).len() && (#[trigger] trim_seq(input)[i] == '/' || trim_seq(
                input,
            )[i] == '.' || trim_seq(input)[i] == '@' || trim_seq(input)[i] == ' '))
            ==> check_project_name(trim_seq(input)) is Err,
{
    let t = trim_seq(input);
    law_project_name_rules(t);
    if check_project_name(t) is Ok {
        assert forall|i: int| 0 <= i < t.len() implies ('a' <= #[trigger] t[i] <= 'z') || ('A'
            <= t[i] <= 'Z') || ('0' <= t[i] <= '9') || t[i] == '-' || t[i] == '_' by {
            if i > 0 {
                assert(is_name_char(t[i]));
            }
        }
    }
}


/// A line ending typed after the name (`\n`, or `\r\n` on Windows) does
/// not change how the name or the account is judged.
pub proof fn law_names_ignore_line_ending(input: Seq<char>)
    ensures
        check_project_name(trim_seq(input + seq!['\r', '\n'])) == check_project_name(trim_seq(input)),
        check_project_name(trim_seq(input + seq!['\n'])) == check_project_name(trim_seq(input)),
        check_github_account(trim_seq(input + seq!['\r', '\n'])) == check_github_account(
            trim_seq(input),
        ),
{
    law_trim_ignores_line_ending(input);
}

} // verus!
