//! The log filter: which directives the agent's logger is built from, and
//! whether they parse.
use vstd::prelude::*;
use tracing_subscriber::filter::ParseError;
use tracing_subscriber::EnvFilter;
use crate::health::is_ws;
use crate::health;
use crate::text::{chars_of, owned};

verus! {

#[verifier::external_type_specification]
#[verifier::external_body]
pub struct ExEnvFilter(tracing_subscriber::EnvFilter);

#[verifier::external_type_specification]
#[verifier::external_body]
pub struct ExParseError(tracing_subscriber::filter::ParseError);

/// Every character is white space (so is the empty text).
pub open spec fn blank(s: Seq<char>) -> bool {
    forall|i: int| 0 <= i < s.len() ==> health::is_white_space(#[trigger] s[i])
}

/// The log filter to use: the one set in the environment unless it is
/// absent or blank, else the configured default.
pub fn chosen_log_filter<'a>(value: Option<&'a str>, default_filter: &'a str) -> (r: &'a str)
    ensures
        r@ == (match value {
            Some(v) => if blank(v@) { default_filter@ } else { v@ },
            None => default_filter@,
        }),
{
    match value {
        Some(v) => {
            let chars = chars_of(v);
            let mut i: usize = 0;
            while i < chars.len()
                invariant
                    i <= chars@.len(),
                    chars@ == v@,
                    value == Some(v),
                    forall|k: int| 0 <= k < i ==> health::is_white_space(#[trigger] chars@[k]),
                decreases chars@.len() - i,
            {
                if !is_ws(chars[i]) {
                    assert(!health::is_white_space(v@[i as int]));
                    assert(!blank(v@));
                    return v;
                }
                i = i + 1;
            }
            assert(blank(v@));
            default_filter
        },
        None => default_filter,
    }
}

/// Whether `EnvFilter::try_new` accepts a directive string: each of its
/// non-empty comma-separated parts must parse as a directive.
pub uninterp spec fn directives_parse(dirs: Seq<char>) -> bool;

/// Position `k` starts one of the comma-separated parts of `s`.
pub open spec fn part_start(s: Seq<char>, k: int) -> bool {
    k == 0 || s[k - 1] == ','
}

/// No comma stands in `s` from `k` up to, not including, `j`.
pub open spec fn no_comma_between(s: Seq<char>, k: int, j: int) -> bool {
    forall|m: int| k <= m < j ==> s[m] != ','
}

/// The directive parser of tracing_subscriber can be handed `s` without
/// aborting: every comma-separated part that starts with white space holds
/// ASCII characters only.  The parser walks the trimmed part but cuts the
/// untrimmed one at the same byte offsets, which can fall inside a
/// multi-byte character only when leading white space precedes one.
pub open spec fn directives_safe(s: Seq<char>) -> bool {
    forall|k: int, j: int|
        #![trigger part_start(s, k), s[j]]
        0 <= k <= j < s.len() && part_start(s, k) && health::is_white_space(s[k])
            && no_comma_between(s, k, j) ==> (s[j] as u32) < 128
}

/// Tells whether `s` meets `directives_safe`.
pub fn directives_are_safe(s: &str) -> (r: bool)
    ensures
        r == directives_safe(s@),
{
    let chars = chars_of(s);
    let mut start: usize = 0;
    let mut i: usize = 0;
    while i < chars.len()
        invariant
            chars@ == s@,
            start <= i <= chars@.len(),
            part_start(s@, start as int),
            no_comma_between(s@, start as int, i as int),
            forall|k: int, j: int|
                #![trigger part_start(s@, k), s@[j]]
                0 <= k <= j < i && part_start(s@, k) && health::is_white_space(s@[k])
                    && no_comma_between(s@, k, j) ==> (s@[j] as u32) < 128,
        decreases chars@.len() - i,
    {
        let c = chars[i];
        proof {
            assert forall|k: int|
                0 <= k <= i && #[trigger] part_start(s@, k) && no_comma_between(s@, k, i as int)
                implies k == start by {
                if k < start {
                    assert(s@[start - 1] == ',');
                } else if k > start {
                    assert(s@[k - 1] == ',');
                }
            }
        }
        if is_ws(chars[start]) && (c as u32) >= 128 {
            assert(part_start(s@, start as int) && s@[i as int] == c);
            return false;
        }
        if c == ',' {
            start = i + 1;
        }
        i = i + 1;
    }
    true
}

/// Calls `tracing_subscriber::EnvFilter::try_new`.  Claimed of it: whether
/// it succeeds depends on the directive string alone (`directives_parse`),
/// and the empty string succeeds (the builder returns a filter with no
/// directives for it).  Which strings parse is not stated.  The parser
/// aborts on some strings that `directives_safe` rules out, so callers
/// must check it first.
#[verifier::external_body]
fn parse_env_filter(dirs: &str) -> (r: Result<EnvFilter, ParseError>)
    requires
        directives_safe(dirs@),
    ensures
        r is Ok <==> directives_parse(dirs@),
        dirs@.len() == 0 ==> r is Ok,
{
    EnvFilter::try_new(dirs)
}

/// A directive string that was refused: with the parser's error, or with
/// none when the string was refused before the parser saw it.
pub struct LogFilterError {
    pub directives: String,
    pub cause: Option<ParseError>,
}

/// What becomes of the parser's answer for `directives`: the filter, or the
/// error that names the directives and carries the parser's error.
pub fn log_filter_result(directives: &str, parsed: Result<EnvFilter, ParseError>) -> (r: Result<
    EnvFilter,
    LogFilterError,
>)
    ensures
        r is Ok <==> parsed is Ok,
        r matches Ok(f) ==> parsed == Ok::<EnvFilter, ParseError>(f),
        r matches Err(e) ==> e.directives@ == directives@ && (parsed matches Err(c) && e.cause == Some(c)),
{
    match parsed {
        Ok(f) => Ok(f),
        Err(cause) => Err(LogFilterError { directives: owned(directives), cause: Some(cause) }),
    }
}

/// The directives the logger is built from: `RUST_LOG` unless it is absent
/// or blank, else the configured default.
pub open spec fn chosen_directives(value: Option<&str>, default_filter: &str) -> Seq<char> {
    match value {
        Some(v) => if blank(v@) { default_filter@ } else { v@ },
        None => default_filter@,
    }
}

/// The log filter from the environment's value and the configured default.
/// It fails exactly when the chosen directives do not parse.  Directives
/// that would make the parser abort (`directives_safe` fails) are refused
/// here, with no parser error: that is the one place where the program
/// this library serves would otherwise stop.
pub fn env_filter_from(value: Option<&str>, default_filter: &str) -> (r: Result<EnvFilter, LogFilterError>)
    ensures
        r is Ok <==> directives_safe(chosen_directives(value, default_filter)) && directives_parse(
            chosen_directives(value, default_filter),
        ),
        chosen_directives(value, default_filter).len() == 0 ==> r is Ok,
        r matches Err(e) ==> e.directives@ == chosen_directives(value, default_filter) && (e.cause is None
            <==> !directives_safe(chosen_directives(value, default_filter))),
{
    let directives = chosen_log_filter(value, default_filter);
    if !directives_are_safe(directives) {
        return Err(LogFilterError { directives: owned(directives), cause: None });
    }
    let parsed = parse_env_filter(directives);
    log_filter_result(directives, parsed)
}

} // verus!
