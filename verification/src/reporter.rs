//! The line that reports the outcome of looking up one environment variable.
//!
//! A lookup either finds a value or fails for one of two reasons. A value is
//! reported under its key in a quoted rendering that makes whitespace and
//! control characters visible; a failure is reported as a sentence that names
//! the key and the reason. Every outcome has its report, and the opening of
//! a report tells which of the two kinds it is.
use vstd::prelude::*;
use crate::text::{debug_quoted, debug_rendering};

verus! {

/// The key that the reporter looks up.
pub const LOOKUP_KEY: &'static str = "PATH";

/// Why a lookup found no usable value.
#[derive(Debug, Clone, PartialEq, Eq)]
pub enum LookupFailure {
    /// No variable of that name is set.
    NotPresent,
    /// The variable is set, but its value is not valid Unicode. The field is
    /// the offending value as the platform renders it for diagnostics.
    NotUnicode(String),
}

impl LookupFailure {
    /// The words that describe this failure in a report.
    pub open spec fn reason(self) -> Seq<char> {
        match self {
            LookupFailure::NotPresent => "environment variable not found"@,
            LookupFailure::NotUnicode(raw) => "environment variable was not valid unicode: "@
                + raw@,
        }
    }

    /// Describes the failure in words.
    pub fn describe(&self) -> (words: String)
        ensures
            words@ == self.reason(),
    {
        match self {
            LookupFailure::NotPresent => String::from_str("environment variable not found"),
            LookupFailure::NotUnicode(raw) => {
                let mut words = String::from_str("environment variable was not valid unicode: ");
                words.append(raw.as_str());
                words
            },
        }
    }
}

/// The text of the line for a variable that is set: the key, a colon and a
/// space, then the value in its quoted rendering.
pub open spec fn value_text(key: Seq<char>, quoted: Seq<char>) -> Seq<char> {
    key + ": "@ + quoted
}

/// The text of the line for a lookup that failed: a fixed opening, the key, a
/// colon and a space, then the reason.
pub open spec fn failure_text(key: Seq<char>, reason: Seq<char>) -> Seq<char> {
    "couldn't interpret "@ + key + ": "@ + reason
}

/// The text of the line that reports `outcome` for `key`.
pub open spec fn report_text(key: Seq<char>, outcome: Result<String, LookupFailure>) -> Seq<
    char,
> {
    match outcome {
        Ok(value) => value_text(key, debug_rendering(value@)),
        Err(failure) => failure_text(key, failure.reason()),
    }
}

/// Labels an already quoted value with the key it was found under.
pub fn value_line(key: &str, quoted: &str) -> (line: String)
    ensures
        line@ == value_text(key@, quoted@),
{
    let mut line = String::from_str(key);
    line.append(": ");
    line.append(quoted);
    line
}

/// Reports that the lookup of `key` failed, and why.
pub fn failure_line(key: &str, failure: &LookupFailure) -> (line: String)
    ensures
        line@ == failure_text(key@, failure.reason()),
{
    let words = failure.describe();
    let mut line = String::from_str("couldn't interpret ");
    line.append(key);
    line.append(": ");
    line.append(words.as_str());
    line
}

/// Builds the line that reports the outcome of looking up `key`.
///
/// A value found is quoted and labelled with the key; a failure is described
/// after the key. Every outcome yields a line.
pub fn report_line(key: &str, outcome: &Result<String, LookupFailure>) -> (line: String)
    ensures
        line@ == report_text(key@, *outcome),
{
    match outcome {
        Ok(value) => {
            let quoted = debug_quoted(value.as_str());
            value_line(key, quoted.as_str())
        },
        Err(failure) => failure_line(key, failure),
    }
}

/// Whether `line` opens as the report of a value found under `key` does.
pub open spec fn is_value_line(key: Seq<char>, line: Seq<char>) -> bool {
    let opening = key + ": "@;
    line.len() >= opening.len() && line.subrange(0, opening.len() as int) == opening
}

/// Whether `line` opens as the report of a failed lookup of `key` does.
pub open spec fn is_failure_line(key: Seq<char>, line: Seq<char>) -> bool {
    let opening = "couldn't interpret "@ + key + ": "@;
    line.len() >= opening.len() && line.subrange(0, opening.len() as int) == opening
}

/// Where a line opens both ways, none of its first `key.len() + 19` characters
/// is a colon: each of them repeats a character of the fixed opening of a
/// failure line, which is 19 characters long and holds no colon.
proof fn lemma_no_colon_in_repeated_opening(key: Seq<char>, line: Seq<char>, at: int)
    requires
        is_value_line(key, line),
        is_failure_line(key, line),
        0 <= at < key.len() + 19,
    ensures
        line[at] != ':',
    decreases at,
{
    reveal_strlit("couldn't interpret ");
    reveal_strlit(": ");
    let opening = "couldn't interpret "@ + key + ": "@;
    assert(line.subrange(0, opening.len() as int)[at] == line[at]);
    if at >= 19 {
        let back: int = at - 19;
        lemma_no_colon_in_repeated_opening(key, line, back);
        assert(opening[at] == key[back]);
        assert(line.subrange(0, (key + ": "@).len() as int)[back] == line[back]);
        assert((key + ": "@)[back] == key[back]);
    }
}

/// No line opens both as a value line and as a failure line for one key, so
/// a reader can always tell which of the two a report is.
pub proof fn lemma_line_kinds_exclude(key: Seq<char>, line: Seq<char>)
    ensures
        !(is_value_line(key, line) && is_failure_line(key, line)),
{
    if is_value_line(key, line) && is_failure_line(key, line) {
        reveal_strlit(": ");
        let at: int = key.len() as int;
        lemma_no_colon_in_repeated_opening(key, line, at);
        assert(line.subrange(0, (key + ": "@).len() as int)[at] == line[at]);
        assert((key + ": "@)[at] == ':');
    }
}

/// Every outcome has a well-formed report: a value found gives a value line
/// and never a failure line, a failed lookup gives a failure line and never a
/// value line.
pub proof fn lemma_report_matches_outcome(key: Seq<char>, outcome: Result<String, LookupFailure>)
    ensures
        outcome is Ok <==> is_value_line(key, report_text(key, outcome)),
        outcome is Err <==> is_failure_line(key, report_text(key, outcome)),
{
    let line = report_text(key, outcome);
    lemma_line_kinds_exclude(key, line);
    match outcome {
        Ok(value) => {
            let opening = key + ": "@;
            assert(line.subrange(0, opening.len() as int) =~= opening);
        },
        Err(failure) => {
            let opening = "couldn't interpret "@ + key + ": "@;
            assert(line.subrange(0, opening.len() as int) =~= opening);
        },
    }
}

/// The report of a value that was found shows the key first and, after the
/// separator, exactly the quoted rendering of that value and nothing more.
pub proof fn lemma_value_report_shows_value(key: Seq<char>, value: String)
    ensures
        ({
            let line = report_text(key, Ok(value));
            let width: int = key.len() as int;
            &&& line.len() == width + 2 + debug_rendering(value@).len()
            &&& line.subrange(0, width) == key
            &&& line[width] == ':'
            &&& line[width + 1] == ' '
            &&& line.subrange(width + 2, line.len() as int) == debug_rendering(value@)
        }),
{
    reveal_strlit(": ");
    let line = report_text(key, Ok(value));
    let width: int = key.len() as int;
    assert(line.subrange(0, width) =~= key);
    assert(line.subrange(width + 2, line.len() as int) =~= debug_rendering(value@));
}

/// Two values found under one key are reported by the same line only if
/// their quoted renderings are the same.
pub proof fn lemma_value_report_tells_values_apart(key: Seq<char>, first: String, second: String)
    requires
        report_text(key, Ok(first)) == report_text(key, Ok(second)),
    ensures
        debug_rendering(first@) == debug_rendering(second@),
{
    lemma_value_report_shows_value(key, first);
    lemma_value_report_shows_value(key, second);
}

/// The report for a key that is not set is the fixed opening, the key, the
/// separator and the fixed words for a missing variable: it names the key and
/// holds no value.
pub proof fn lemma_unset_report_names_key(key: Seq<char>)
    ensures
        ({
            let line = report_text(key, Err(LookupFailure::NotPresent));
            let opening = "couldn't interpret "@;
            let start: int = opening.len() as int;
            &&& line == opening + key + ": environment variable not found"@
            &&& line.len() == key.len() + 51
            &&& line.subrange(start, start + key.len()) == key
        }),
{
    reveal_strlit("couldn't interpret ");
    reveal_strlit(": ");
    reveal_strlit("environment variable not found");
    reveal_strlit(": environment variable not found");
    let line = report_text(key, Err(LookupFailure::NotPresent));
    assert(line =~= "couldn't interpret "@ + key + ": environment variable not found"@);
    assert(line.subrange(19, 19 + key.len() as int) =~= key);
}

} // verus!
