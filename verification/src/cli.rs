use vstd::prelude::*;
use vstd::string::*;

use crate::text::white_space;

verus! {

/// `s` without its leading white space.
pub open spec fn trim_start(s: Seq<char>) -> Seq<char>
    decreases s.len(),
{
    if s.len() > 0 && white_space(s[0]) {
        trim_start(s.drop_first())
    } else {
        s
    }
}

/// `s` without its trailing white space.
pub open spec fn trim_end(s: Seq<char>) -> Seq<char>
    decreases s.len(),
{
    if s.len() > 0 && white_space(s.last()) {
        trim_end(s.drop_last())
    } else {
        s
    }
}

/// `s` without leading and trailing white space.
pub open spec fn trimmed(s: Seq<char>) -> Seq<char> {
    trim_end(trim_start(s))
}

/// Calls `str::trim`, which removes leading and trailing characters with
/// the Unicode `White_Space` property.
#[verifier::external_body]
pub(crate) fn trim(s: &str) -> (t: &str)
    ensures
        t@ == trimmed(s@),
{
    s.trim()
}

/// The ASCII lower-case form of a character; other characters are kept.
pub open spec fn ascii_lower(c: char) -> char {
    if 'A' <= c <= 'Z' {
        ((c as u32) + 32) as char
    } else {
        c
    }
}

/// Two texts that differ at most in the case of ASCII letters.
pub open spec fn same_ignoring_ascii_case(a: Seq<char>, b: Seq<char>) -> bool {
    &&& a.len() == b.len()
    &&& forall|i: int| 0 <= i < a.len() ==> ascii_lower(#[trigger] a[i]) == ascii_lower(b[i])
}

/// Calls `str::eq_ignore_ascii_case`, which holds when the two texts are
/// equal once their ASCII letters are lower-cased.
#[verifier::external_body]
pub(crate) fn eq_ignore_ascii_case(a: &str, b: &str) -> (r: bool)
    ensures
        r <==> same_ignoring_ascii_case(a@, b@),
{
    a.eq_ignore_ascii_case(b)
}

/// What the interactive loop does with a line that the user typed.
#[derive(Debug, Clone, PartialEq, Eq)]
pub enum CliInput {
    /// End the session.
    Quit,
    /// Nothing to send; ask again.
    Skip,
    /// Send this message to the model.
    Message(String),
}

/// Classifies a typed line. Once trimmed, `exit` or `quit` in any ASCII
/// case ends the session, an empty line is skipped, and anything else is a
/// message to send.
pub fn classify_input(line: &str) -> (r: CliInput)
    ensures
        same_ignoring_ascii_case(trimmed(line@), "exit"@) || same_ignoring_ascii_case(
            trimmed(line@),
            "quit"@,
        ) ==> r is Quit,
        !same_ignoring_ascii_case(trimmed(line@), "exit"@) && !same_ignoring_ascii_case(
            trimmed(line@),
            "quit"@,
        ) ==> {
            if trimmed(line@).len() == 0 {
                r is Skip
            } else {
                r matches CliInput::Message(m) && m@ == trimmed(line@)
            }
        },
{
    let input = trim(line);
    if eq_ignore_ascii_case(input, "exit") || eq_ignore_ascii_case(input, "quit") {
        CliInput::Quit
    } else if input.is_empty() {
        CliInput::Skip
    } else {
        CliInput::Message(String::from_str(input))
    }
}

} // verus!
