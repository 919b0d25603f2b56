//! How the arguments of a call are read: the face that it asks for, its counts and its path.
use crate::call::{outcome, Call, CallView, Error, Failure};
use crate::number::{all_digits, number, parse_digits, parse_number, value};
use crate::text::{chars_of, contains, occurs};
use vstd::prelude::*;
use vstd::string::StringExecFns;

verus! {

/// A message that ends with a text between backquotes, of which the message holds the first.
pub open spec fn quoting(message: Seq<char>, s: Seq<char>) -> Seq<char> {
    message + s + "`"@
}

/// A message that ends with a text between backquotes.
pub(crate) fn quoting_text(message: &str, s: &str) -> (whole: String)
    ensures
        whole@ == quoting(message@, s@),
{
    let mut whole = message.to_string();
    whole.append(s);
    whole.append("`");
    whole
}

/// Whether a call asks for the JSON face: its `as` argument holds `json` somewhere.
pub open spec fn asks_json(call: CallView) -> bool {
    match call.arg("as"@) {
        Some(face) => occurs("json"@, face),
        None => false,
    }
}

/// The `as=` face convention: a face is selected by substring, so `as=application/json` and
/// `as=json` both work.
pub fn wants_json(call: &Call) -> (yes: bool)
    ensures
        yes == asks_json(call@),
{
    match call.inline_str("as") {
        Some(face) => contains(face, "json"),
        None => false,
    }
}

/// The count that a call's `limit` argument gives.
pub open spec fn limit(call: CallView, default: u32) -> Result<u32, Failure> {
    match call.arg("limit"@) {
        Some(s) => match number(s, u32::MAX as nat) {
            Some(n) => Ok(n as u32),
            None => Err(Failure::Endpoint(quoting("limit must be a number, got `"@, s))),
        },
        None => Ok(default),
    }
}

/// Parse a `limit=` argument as a count. Arguments are passed as an argument vector (no
/// shell), so this is not an injection guard: it stops a stray value from becoming a *flag*
/// (`-{limit}` with a leading dash) and gives a clean error.
pub fn parse_limit(call: &Call, default: u32) -> (count: Result<u32, Error>)
    ensures
        outcome(count) == limit(call@, default),
{
    match call.inline_str("limit") {
        Some(s) => match parse_number(s, u32::MAX as u64) {
            Some(n) => Ok(n as u32),
            None => Err(Error::Endpoint(quoting_text("limit must be a number, got `", s))),
        },
        None => Ok(default),
    }
}

/// The pull-request number that a call's `pr` argument gives: decimal digits only.
pub open spec fn pr_number(call: CallView) -> Result<u64, Failure> {
    match call.arg("pr"@) {
        Some(s) => if all_digits(s) && value(s) <= u64::MAX {
            Ok(value(s) as u64)
        } else {
            Err(Failure::Endpoint(quoting("pr must be a number, got `"@, s)))
        },
        None => Err(Failure::MissingArgument("pr (the pull-request number)"@)),
    }
}

/// Parse the required `pr=` argument as a PR number. Like [`parse_limit`], this is a flag
/// guard, not a shell guard (there is no shell): the value is positional in the gh argument
/// vector, so a stray `--web` or `--repo` would otherwise become a *flag* to gh. Digits-only
/// also matches the declared `xsd:integer` class.
pub fn parse_pr(call: &Call) -> (pr: Result<u64, Error>)
    ensures
        outcome(pr) == pr_number(call@),
{
    match call.inline_str("pr") {
        Some(s) => match parse_digits(s, u64::MAX) {
            Some(n) => Ok(n),
            None => Err(Error::Endpoint(quoting_text("pr must be a number, got `", s))),
        },
        None => Err(Error::MissingArgument("pr (the pull-request number)".to_string())),
    }
}

/// The path that a call's `path` argument gives.
pub open spec fn path(call: CallView) -> Result<Option<Seq<char>>, Failure> {
    match call.arg("path"@) {
        Some(s) => if s.len() == 0 {
            Err(Failure::Endpoint("path must not be empty"@))
        } else if s[0] == '-' {
            Err(Failure::Endpoint(quoting("path must be a pathspec, not a flag: got `"@, s)))
        } else {
            Ok(Some(s))
        },
        None => Ok(None),
    }
}

/// Parse an optional `path=` argument as a pathspec. The value travels in the argument
/// vector *after* `--`, git's own "everything past here is a path" delimiter, so it can
/// never be read as a flag or a rev; the guard, like [`parse_limit`], exists to refuse a
/// value that *looks* like a flag with a clean error instead of quietly matching nothing,
/// and to stop the empty string (git rejects the empty pathspec with its own fatal).
pub fn parse_path(call: &Call) -> (pathspec: Result<Option<String>, Error>)
    ensures
        outcome(pathspec) == path(call@),
{
    match call.inline_str("path") {
        Some(s) => {
            let chars = chars_of(s);
            if chars.len() == 0 {
                Err(Error::Endpoint("path must not be empty".to_string()))
            } else if chars[0] == '-' {
                Err(
                    Error::Endpoint(
                        quoting_text("path must be a pathspec, not a flag: got `", s),
                    ),
                )
            } else {
                Ok(Some(s.to_string()))
            }
        },
        None => Ok(None),
    }
}

} // verus!
