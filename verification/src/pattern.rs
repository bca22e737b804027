//! Regular-expression captures through the `regex` crate.

use vstd::prelude::*;

verus! {

/// The view of a list of optional strings.
pub open spec fn groups_view(g: Seq<Option<String>>) -> Seq<Option<Seq<char>>> {
    g.map_values(|o: Option<String>| opt_str_view(o))
}

/// The view of an optional string.
pub open spec fn opt_str_view(o: Option<String>) -> Option<Seq<char>> {
    match o {
        Some(s) => Some(s@),
        None => None,
    }
}

/// The capture groups of the first match of `pattern` in `text`, as the
/// `regex` crate computes them (group 0 is the whole match; a group that
/// took no part in the match is `None`). `None` when the pattern does not
/// compile or does not match.
pub uninterp spec fn regex_captures_of(pattern: Seq<char>, text: Seq<char>) -> Option<
    Seq<Option<Seq<char>>>,
>;

/// Compiles `pattern` with `regex::Regex::new` and applies
/// `Regex::captures` to `text`. The contract claims only that the groups
/// returned are the named result `regex_captures_of(pattern, text)`; what
/// that result is on given values is left to the `regex` crate.
#[verifier::external_body]
pub(crate) fn regex_captures(pattern: &str, text: &str) -> (r: Option<Vec<Option<String>>>)
    ensures
        match r {
            Some(g) => regex_captures_of(pattern@, text@) == Some(groups_view(g@)),
            None => regex_captures_of(pattern@, text@) is None,
        },
{
    let re = regex::Regex::new(pattern).ok()?;
    let caps = re.captures(text)?;
    Some(caps.iter().map(|m| m.map(|m| m.as_str().to_string())).collect())
}

/// Group `k` of a list of capture groups, the empty string when the group
/// is absent.
pub open spec fn group_or_empty(g: Seq<Option<Seq<char>>>, k: int) -> Seq<char> {
    if 0 <= k < g.len() {
        match g[k] {
            Some(s) => s,
            None => Seq::empty(),
        }
    } else {
        Seq::empty()
    }
}

/// When `pattern` matches `text`, group `k` of the first match (empty when
/// that group took no part in it); `None` when there is no match.
pub open spec fn matched_group(pattern: Seq<char>, text: Seq<char>, k: int) -> Option<Seq<char>> {
    match regex_captures_of(pattern, text) {
        Some(g) => Some(group_or_empty(g, k)),
        None => None,
    }
}

/// Group `k` of the first match of `pattern` in `text` (what `caps[k]`
/// reads after a successful `captures`), or `None` when nothing matched.
pub fn matched_group_exec(pattern: &str, text: &str, k: usize) -> (r: Option<String>)
    ensures
        opt_str_view(r) == matched_group(pattern@, text@, k as int),
{
    match regex_captures(pattern, text) {
        Some(g) => {
            if k < g.len() {
                proof {
                    assert(groups_view(g@)[k as int] == opt_str_view(g@[k as int]));
                }
                match &g[k] {
                    Some(s) => Some(s.clone()),
                    None => Some(String::new()),
                }
            } else {
                Some(String::new())
            }
        },
        None => None,
    }
}

} // verus!
