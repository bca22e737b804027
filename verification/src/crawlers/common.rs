//! Pieces shared by the page extractors.

use vstd::prelude::*;
use crate::dom::{Document, attr_or_empty, elems, first_of, opt_index, select_doc, select_in, text_of};
use crate::numbers::{parse_i32, parse_i32_seq, parse_i64, parse_i64_seq};
use crate::pattern::{matched_group, matched_group_exec};
use crate::text::trim_seq;

verus! {

/// A number read from trimmed text as `str::parse` reads it, or `default`.
pub open spec fn int_or(t: Seq<char>, default: i32) -> i32 {
    match parse_i32_seq(trim_seq(t)) {
        Some(v) => v,
        None => default,
    }
}

/// The number in the trimmed text of element `i`, or `default`.
pub fn text_int_or(doc: &Document, i: usize, default: i32) -> (r: i32)
    requires
        doc.wf(),
        i < elems(doc.src()).len(),
    ensures
        r == int_or(text_of(doc.src(), i as int), default),
{
    let t = doc.trimmed_text(i);
    match parse_i32(t.as_str()) {
        Some(v) => v,
        None => default,
    }
}

/// The pattern that finds a song's id in its address.
pub open spec fn song_id_pattern() -> Seq<char> {
    "/song/(\\d+)"@
}

/// The song id in a song address (`/song/{id}`), or 0 when there is none
/// or it does not fit in an `i64`.
pub open spec fn song_id_of_url(url: Seq<char>) -> i64 {
    match matched_group(song_id_pattern(), url, 1) {
        Some(g) => match parse_i64_seq(g) {
            Some(v) => v,
            None => 0,
        },
        None => 0,
    }
}

/// The song id in a song address, or 0.
pub fn song_id_from_url(url: &str) -> (r: i64)
    ensures
        r == song_id_of_url(url@),
{
    match matched_group_exec("/song/(\\d+)", url, 1) {
        Some(g) => match parse_i64(g.as_str()) {
            Some(v) => v,
            None => 0,
        },
        None => 0,
    }
}

/// Trimmed text of the first element of a selection, or empty.
pub open spec fn first_text_or_empty(src: Seq<char>, i: Option<int>) -> Seq<char> {
    match i {
        Some(j) => trim_seq(text_of(src, j)),
        None => Seq::empty(),
    }
}

/// An attribute of an optional element, or empty.
pub open spec fn first_attr_or_empty(src: Seq<char>, i: Option<int>, k: int) -> Seq<char> {
    match i {
        Some(j) => attr_or_empty(src, j, k),
        None => Seq::empty(),
    }
}

/// Trimmed text of an optional element, or empty.
pub fn opt_trimmed_text(doc: &Document, i: Option<usize>) -> (r: String)
    requires
        doc.wf(),
        i matches Some(j) ==> j < elems(doc.src()).len(),
    ensures
        r@ == first_text_or_empty(doc.src(), opt_index(i)),
{
    match i {
        Some(j) => doc.trimmed_text(j),
        None => String::new(),
    }
}

/// An attribute of an optional element, or empty.
pub fn opt_attr(doc: &Document, i: Option<usize>, k: usize) -> (r: String)
    requires
        doc.wf(),
        i matches Some(j) ==> j < elems(doc.src()).len(),
    ensures
        r@ == first_attr_or_empty(doc.src(), opt_index(i), k as int),
{
    match i {
        Some(j) => doc.attr_or_empty(j, k),
        None => String::new(),
    }
}

/// The view of a list of element indices.
pub open spec fn idx_view(v: Seq<usize>) -> Seq<int> {
    v.map_values(|j: usize| j as int)
}

/// The rows (`tr`) of the first `tbody` of the first element matching
/// `table_sel` in the document.
pub open spec fn doc_table_rows_spec(src: Seq<char>, table_sel: Seq<char>) -> Seq<int> {
    match first_of(select_doc(src, table_sel)) {
        Some(t) => match first_of(select_in(src, "tbody"@, t)) {
            Some(tb) => select_in(src, "tr"@, tb),
            None => Seq::empty(),
        },
        None => Seq::empty(),
    }
}

/// The rows of the first `tbody` of the first element matching `table_sel`.
pub fn doc_table_rows(doc: &Document, table_sel: &str) -> (r: Vec<usize>)
    requires
        doc.wf(),
    ensures
        idx_view(r@) == doc_table_rows_spec(doc.src(), table_sel@),
        forall|m: int| 0 <= m < r@.len() ==> #[trigger] r@[m] < elems(doc.src()).len(),
{
    let table = doc.selection(table_sel);
    match doc.first_all(&table) {
        Some(t) => {
            let tbody = doc.selection("tbody");
            match doc.first_in(&tbody, t) {
                Some(tb) => {
                    let tr = doc.selection("tr");
                    doc.select_in(&tr, tb)
                },
                None => Vec::new(),
            }
        },
        None => Vec::new(),
    }
}

} // verus!
