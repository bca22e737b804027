//! What the commands show of stored rows and settings.

use vstd::prelude::*;
use crate::models::NameTable;
use crate::numbers::{i64_to_string, int_decimal};
use crate::pattern::opt_str_view;
use crate::rows::RankingRow;
use crate::text::{concat, owned, string_of_range, chars_of};

verus! {

/// What is shown for a missing value.
pub const MISSING: &'static str = "-";

/// An optional text as shown: the text, or `-`.
pub open spec fn or_dash_spec(o: Option<Seq<char>>) -> Seq<char> {
    match o {
        Some(s) => s,
        None => MISSING@,
    }
}

/// An optional text as shown: the text, or `-`.
pub fn or_dash(o: &Option<String>) -> (r: String)
    ensures
        r@ == or_dash_spec(opt_str_view(*o)),
{
    match o {
        Some(s) => s.clone(),
        None => owned(MISSING),
    }
}

/// Integer division rounding toward zero, as Rust's `/` does.
pub open spec fn div_toward_zero(a: int, b: int) -> int {
    if a >= 0 {
        a / b
    } else {
        -((-a) / b)
    }
}

/// A file size as shown: whole kilobytes (1024 bytes, rounded toward
/// zero) followed by `KB`, or `-` when unknown.
pub open spec fn size_label_spec(size: Option<i64>) -> Seq<char> {
    match size {
        Some(s) => int_decimal(div_toward_zero(s as int, 1024)) + "KB"@,
        None => MISSING@,
    }
}

/// A file size as shown.
pub fn size_label(size: Option<i64>) -> (r: String)
    ensures
        r@ == size_label_spec(size),
{
    match size {
        Some(s) => {
            let kb: i64 = if s >= 0 {
                s / 1024
            } else {
                let magnitude: i128 = 0i128 - (s as i128);
                let q: i128 = magnitude / 1024;
                (0i128 - q) as i64
            };
            concat(i64_to_string(kb).as_str(), "KB")
        },
        None => owned(MISSING),
    }
}

/// A ranking type as shown: its display name when the table knows it,
/// else the type itself.
pub open spec fn type_label_spec(types: Map<Seq<char>, Seq<char>>, t: Seq<char>) -> Seq<char> {
    if types.contains_key(t) {
        types[t]
    } else {
        t
    }
}

/// A ranking type as shown.
pub fn ranking_type_label(types: &NameTable, t: &str) -> (r: String)
    ensures
        r@ == type_label_spec(types@, t@),
{
    match types.get(t) {
        Some(name) => owned(name),
        None => owned(t),
    }
}

/// What a ranking row names: the singer, else the song's title, else `-`.
pub open spec fn ranking_item_label_spec(singer_name: Option<Seq<char>>, title: Option<Seq<char>>) -> Seq<char> {
    match singer_name {
        Some(n) => n,
        None => or_dash_spec(title),
    }
}

/// What a ranking row names.
pub fn ranking_item_label(row: &RankingRow) -> (r: String)
    ensures
        r@ == ranking_item_label_spec(opt_str_view(row.singer_name), opt_str_view(row.title)),
{
    match &row.singer_name {
        Some(n) => n.clone(),
        None => or_dash(&row.title),
    }
}

/// What is shown for an unset cookie.
pub const UNSET: &'static str = "(未设置)";

/// How many characters of the cookie are shown.
pub const COOKIE_SHOWN: usize = 20;

/// Whether the first `COOKIE_SHOWN` characters of `s` (or all, when
/// fewer) are ASCII, so that as many bytes hold as many characters.
pub open spec fn ascii_head(s: Seq<char>) -> bool {
    forall|i: int| 0 <= i < s.len() && i < COOKIE_SHOWN ==> (#[trigger] s[i]) < '\u{80}'
}

/// Whether the head of `s` is ASCII (see [`ascii_head`]).
pub fn has_ascii_head(s: &str) -> (b: bool)
    ensures
        b == ascii_head(s@),
{
    let cs = chars_of(s);
    let mut i: usize = 0;
    while i < cs.len() && i < COOKIE_SHOWN
        invariant
            cs@ == s@,
            i <= cs@.len(),
            i <= COOKIE_SHOWN,
            forall|j: int| 0 <= j < i ==> (#[trigger] s@[j]) < '\u{80}',
        decreases cs.len() - i,
    {
        if cs[i] >= '\u{80}' {
            return false;
        }
        i = i + 1;
    }
    true
}

/// The cookie as shown: `(未设置)` when empty, else its first characters
/// (at most `COOKIE_SHOWN`) followed by `...`.
pub open spec fn cookie_preview_spec(cookie: Seq<char>) -> Seq<char> {
    if cookie.len() == 0 {
        UNSET@
    } else if cookie.len() <= COOKIE_SHOWN {
        cookie + "..."@
    } else {
        cookie.take(COOKIE_SHOWN as int) + "..."@
    }
}

/// The cookie as shown. Its head must be ASCII: the cut is made after
/// `COOKIE_SHOWN` bytes.
pub fn cookie_preview(cookie: &str) -> (r: String)
    requires
        ascii_head(cookie@),
    ensures
        r@ == cookie_preview_spec(cookie@),
{
    let cs = chars_of(cookie);
    if cs.len() == 0 {
        owned(UNSET)
    } else {
        let n: usize = if cs.len() <= COOKIE_SHOWN { cs.len() } else { COOKIE_SHOWN };
        let head = string_of_range(cs.as_slice(), 0, n);
        proof {
            if cs@.len() <= COOKIE_SHOWN {
                assert(head@ =~= cookie@);
            }
        }
        concat(head.as_str(), "...")
    }
}

} // verus!
