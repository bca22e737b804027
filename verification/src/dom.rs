//! Parsed HTML documents: a plain snapshot of the elements that the
//! extraction logic reads, with CSS selection over it.
//!
//! Parsing and selector matching are done by the `scraper` crate. The
//! snapshot lists the document's elements in document (pre-)order starting
//! at the root `<html>` element; a selector is represented by one flag per
//! element telling whether the element matches it.

use vstd::prelude::*;
use crate::pattern::opt_str_view;
use crate::text::{trim, trim_seq};

verus! {

/// Index of the `href` attribute in an element's attribute values.
pub const ATTR_HREF: usize = 0;

/// Index of the `src` attribute in an element's attribute values.
pub const ATTR_SRC: usize = 1;

/// Index of the `value` attribute in an element's attribute values.
pub const ATTR_VALUE: usize = 2;

/// Index of the `class` attribute in an element's attribute values.
pub const ATTR_CLASS: usize = 3;

/// What the extraction logic reads of one element.
pub struct HtmlElement {
    /// Values of the attributes `href`, `src`, `value`, `class`, in that order.
    pub attrs: Vec<Option<String>>,
    /// All text of the element's subtree, concatenated in document order.
    pub text: String,
    /// The first text node of the element's subtree.
    pub first_text: Option<String>,
    /// The serialised HTML of the element's children.
    pub inner_html: String,
    /// Number of elements in the element's subtree, the element included.
    pub subtree: usize,
}

/// Mathematical view of an [`HtmlElement`].
pub struct ElementView {
    pub attrs: Seq<Option<Seq<char>>>,
    pub text: Seq<char>,
    pub first_text: Option<Seq<char>>,
    pub inner_html: Seq<char>,
    pub subtree: nat,
}

impl View for HtmlElement {
    type V = ElementView;

    open spec fn view(&self) -> ElementView {
        ElementView {
            attrs: self.attrs@.map_values(|o: Option<String>| opt_str_view(o)),
            text: self.text@,
            first_text: opt_str_view(self.first_text),
            inner_html: self.inner_html@,
            subtree: self.subtree as nat,
        }
    }
}

/// The view of a list of elements.
pub open spec fn elements_view(v: Seq<HtmlElement>) -> Seq<ElementView> {
    v.map_values(|e: HtmlElement| e@)
}

/// The elements of the HTML document `source` as `scraper` parses it
/// (`Html::parse_document`), in document order from the root element, each
/// with the values of the attributes named in `names`.
pub uninterp spec fn html_elements_of(source: Seq<char>, names: Seq<Seq<char>>) -> Seq<ElementView>;

/// For each element of the document `source` (in the order of
/// `html_elements_of`), whether it matches the CSS selector `selector`, as
/// `scraper::Selector::matches` decides; `None` when the selector does not
/// parse.
pub uninterp spec fn selector_flags_of(source: Seq<char>, selector: Seq<char>) -> Option<Seq<bool>>;

/// Parses `source` with `scraper::Html::parse_document` and lists its
/// elements (`descendent_elements` of the root element) with, for each,
/// the attribute values (`Element::attr`), the collected `text()`, the
/// first text node, `inner_html()` and the size of its subtree. The
/// contract claims only that the list is the named result
/// `html_elements_of(source, names)`.
#[verifier::external_body]
fn parse_elements(source: &str, names: &[&str]) -> (r: Vec<HtmlElement>)
    ensures
        elements_view(r@) == html_elements_of(source@, names@.map_values(|n: &str| n@)),
{
    let html = scraper::Html::parse_document(source);
    html.root_element().descendent_elements().map(|e| HtmlElement {
        attrs: names.iter().map(|n| e.value().attr(n).map(str::to_string)).collect(),
        text: e.text().collect(),
        first_text: e.text().next().map(str::to_string),
        inner_html: e.inner_html(),
        subtree: e.descendent_elements().count(),
    }).collect()
}

/// Parses `selector` with `scraper::Selector::parse` and the document
/// `source` with `Html::parse_document`, and tells for each element of the
/// document (in the order of `descendent_elements` of the root element)
/// whether `Selector::matches` holds. The contract claims that the result is
/// the named result `selector_flags_of(source, selector)`.
#[verifier::external_body]
fn selector_flags(source: &str, selector: &str) -> (r: Option<Vec<bool>>)
    ensures
        match r {
            Some(f) => selector_flags_of(source@, selector@) == Some(f@),
            None => selector_flags_of(source@, selector@) is None,
        },
{
    let sel = scraper::Selector::parse(selector).ok()?;
    let html = scraper::Html::parse_document(source);
    Some(html.root_element().descendent_elements().map(|e| sel.matches(&e)).collect())
}

/// The elements of the document `source` that `Html::select` yields for
/// the CSS selector `selector`, in its order, each given by its position in
/// the element list of `html_elements_of`; `None` when the selector does
/// not parse.
pub uninterp spec fn doc_selection_of(source: Seq<char>, selector: Seq<char>) -> Option<Seq<int>>;

/// The view of a list of positions.
pub open spec fn positions_view(v: Seq<usize>) -> Seq<int> {
    v.map_values(|j: usize| j as int)
}

/// Parses `selector` (`Selector::parse`) and `source`
/// (`Html::parse_document`), runs `Html::select`, and gives each element it
/// yields as its position among `descendent_elements` of the root element
/// (the order of `parse_elements`), found through its `NodeId`. Every
/// element the document holds lies under the root element, so each one
/// has a position. The contract names the result, and states that each
/// position lies within the element list.
#[verifier::external_body]
fn doc_selection(source: &str, selector: &str) -> (r: Option<Vec<usize>>)
    ensures
        match r {
            Some(v) => doc_selection_of(source@, selector@) == Some(positions_view(v@))
                && forall|k: int| 0 <= k < v@.len() ==> (#[trigger] v@[k]) < html_elements_of(source@, attr_names()).len(),
            None => doc_selection_of(source@, selector@) is None,
        },
{
    let sel = scraper::Selector::parse(selector).ok()?;
    let html = scraper::Html::parse_document(source);
    let pos: std::collections::HashMap<_, usize> =
        html.root_element().descendent_elements().enumerate().map(|(i, e)| (e.id(), i)).collect();
    Some(html.select(&sel).filter_map(|e| pos.get(&e.id()).copied()).collect())
}

/// The attribute names whose values the snapshot keeps.
pub open spec fn attr_names() -> Seq<Seq<char>> {
    seq!["href"@, "src"@, "value"@, "class"@]
}

/// The elements of the document `src`.
pub open spec fn elems(src: Seq<char>) -> Seq<ElementView> {
    html_elements_of(src, attr_names())
}

/// The match flags of `sel` over the document `src` (none for a selector
/// that does not parse).
pub open spec fn flags(src: Seq<char>, sel: Seq<char>) -> Seq<bool> {
    match selector_flags_of(src, sel) {
        Some(f) => f,
        None => Seq::empty(),
    }
}

/// Element `j` of the document `src` matches `sel`.
pub open spec fn matches_at(src: Seq<char>, sel: Seq<char>, j: int) -> bool {
    0 <= j < flags(src, sel).len() && j < elems(src).len() && flags(src, sel)[j]
}

/// Indices in `[lo, hi)` of the elements matching `sel`, in order.
pub open spec fn select_range(src: Seq<char>, sel: Seq<char>, lo: int, hi: int) -> Seq<int>
    decreases hi - lo,
{
    if hi <= lo {
        Seq::empty()
    } else if matches_at(src, sel, hi - 1) {
        select_range(src, sel, lo, hi - 1).push(hi - 1)
    } else {
        select_range(src, sel, lo, hi - 1)
    }
}

/// One past the last element of the subtree of element `i`.
pub open spec fn scope_end(src: Seq<char>, i: int) -> int {
    let n = elems(src).len() as int;
    let e = i + elems(src)[i].subtree;
    if e > n {
        n
    } else {
        e
    }
}

/// Elements of the whole document matching `sel`, in the order in which
/// `Html::select` yields them (the order in which the parser created the
/// elements, which differs from document order where the parser moves
/// misplaced markup), as positions in the element list.
pub open spec fn select_doc(src: Seq<char>, sel: Seq<char>) -> Seq<int> {
    match doc_selection_of(src, sel) {
        Some(s) => s,
        None => Seq::empty(),
    }
}

/// Descendants of element `scope` matching `sel` (what
/// `ElementRef::select` yields), in document order.
pub open spec fn select_in(src: Seq<char>, sel: Seq<char>, scope: int) -> Seq<int> {
    select_range(src, sel, scope + 1, scope_end(src, scope))
}

/// The first element of a selection.
pub open spec fn first_of(s: Seq<int>) -> Option<int> {
    if s.len() > 0 {
        Some(s[0])
    } else {
        None
    }
}

/// Attribute `k` of element `i` of the document `src`.
pub open spec fn attr_of(src: Seq<char>, i: int, k: int) -> Option<Seq<char>> {
    let a = elems(src)[i].attrs;
    if 0 <= k < a.len() {
        a[k]
    } else {
        None
    }
}

/// The text of element `i` of the document `src`.
pub open spec fn text_of(src: Seq<char>, i: int) -> Seq<char> {
    elems(src)[i].text
}

proof fn lemma_select_range_bounds(src: Seq<char>, sel: Seq<char>, lo: int, hi: int)
    ensures
        forall|k: int|
            0 <= k < select_range(src, sel, lo, hi).len() ==> lo <= #[trigger] select_range(
                src,
                sel,
                lo,
                hi,
            )[k] < hi && matches_at(src, sel, select_range(src, sel, lo, hi)[k]),
    decreases hi - lo,
{
    if hi > lo {
        lemma_select_range_bounds(src, sel, lo, hi - 1);
        let prev = select_range(src, sel, lo, hi - 1);
        let cur = select_range(src, sel, lo, hi);
        assert forall|k: int| 0 <= k < cur.len() implies lo <= #[trigger] cur[k] < hi
            && matches_at(src, sel, cur[k]) by {
            if k < prev.len() {
                assert(cur[k] == prev[k]);
            }
        }
    }
}

/// A parsed HTML document.
pub struct Document {
    source: String,
    elements: Vec<HtmlElement>,
}

impl Document {
    /// The HTML text the document was parsed from.
    pub closed spec fn src(&self) -> Seq<char> {
        self.source@
    }

    /// The snapshot is the parse of the source.
    pub closed spec fn wf(&self) -> bool {
        elements_view(self.elements@) == elems(self.source@)
    }

    /// Parses an HTML document (what `Html::parse_document` does).
    pub fn parse(source: &str) -> (d: Document)
        ensures
            d.src() == source@,
            d.wf(),
    {
        let names: [&str; 4] = ["href", "src", "value", "class"];
        let elements = parse_elements(source, &names);
        proof {
            assert(names@.map_values(|n: &str| n@) =~= attr_names());
        }
        Document { source: crate::text::owned(source), elements }
    }

    /// Number of elements.
    pub fn len(&self) -> (n: usize)
        requires
            self.wf(),
        ensures
            n == elems(self.src()).len(),
    {
        self.elements.len()
    }

    /// Element `i`.
    pub fn element(&self, i: usize) -> (e: &HtmlElement)
        requires
            self.wf(),
            i < elems(self.src()).len(),
        ensures
            e@ == elems(self.src())[i as int],
    {
        &self.elements[i]
    }

    /// The elements matching the CSS selector `sel`.
    pub fn selection(&self, sel: &str) -> (s: Selection)
        ensures
            s.selector() == sel@,
            s.flag_seq() == flags(self.src(), sel@),
    {
        let f = match selector_flags(self.source.as_str(), sel) {
            Some(f) => f,
            None => Vec::new(),
        };
        Selection { flags: f, pattern: crate::text::owned(sel) }
    }

    /// Indices in `[lo, hi)` of the elements whose flag is set.
    fn select_range_exec(&self, s: &Selection, lo: usize, hi: usize) -> (r: Vec<usize>)
        requires
            self.wf(),
            s.for_doc(self),
            lo <= hi <= elems(self.src()).len(),
        ensures
            r@.map_values(|j: usize| j as int) == select_range(self.src(), s.selector(), lo as int, hi as int),
    {
        let mut r: Vec<usize> = Vec::new();
        let mut i: usize = lo;
        while i < hi
            invariant
                self.wf(),
                s.for_doc(self),
                lo <= i <= hi <= elems(self.src()).len(),
                r@.map_values(|j: usize| j as int) == select_range(self.src(), s.selector(), lo as int, i as int),
            decreases hi - i,
        {
            if i < s.flags.len() && s.flags[i] {
                r.push(i);
                assert(r@.map_values(|j: usize| j as int) =~= select_range(self.src(), s.selector(), lo as int, i as int).push(i as int));
            }
            i = i + 1;
        }
        r
    }

    /// Elements of the whole document in the selection, in the order of
    /// `Html::select`.
    pub fn select_all(&self, s: &Selection) -> (r: Vec<usize>)
        requires
            self.wf(),
            s.for_doc(self),
        ensures
            r@.map_values(|j: usize| j as int) == select_doc(self.src(), s.selector()),
            forall|k: int| 0 <= k < r@.len() ==> #[trigger] r@[k] < elems(self.src()).len(),
    {
        match doc_selection(self.source.as_str(), s.pattern.as_str()) {
            Some(v) => {
                assert(v@.map_values(|j: usize| j as int) =~= positions_view(v@));
                v
            },
            None => {
                let v: Vec<usize> = Vec::new();
                assert(v@.map_values(|j: usize| j as int) =~= Seq::<int>::empty());
                v
            },
        }
    }

    /// One past the last element of the subtree of element `i`.
    pub fn scope_end(&self, i: usize) -> (e: usize)
        requires
            self.wf(),
            i < elems(self.src()).len(),
        ensures
            e == scope_end(self.src(), i as int),
            i <= e <= elems(self.src()).len(),
    {
        let n = self.elements.len();
        let s = self.elements[i].subtree;
        proof {
            assert(self.elements@[i as int]@ == elems(self.src())[i as int]);
        }
        if s > n - i {
            n
        } else {
            i + s
        }
    }

    /// Descendants of element `scope` in the selection, in document order.
    pub fn select_in(&self, s: &Selection, scope: usize) -> (r: Vec<usize>)
        requires
            self.wf(),
            s.for_doc(self),
            scope < elems(self.src()).len(),
        ensures
            r@.map_values(|j: usize| j as int) == select_in(self.src(), s.selector(), scope as int),
            forall|k: int| 0 <= k < r@.len() ==> #[trigger] r@[k] < elems(self.src()).len(),
    {
        let e = self.scope_end(scope);
        let lo = if e > scope { scope + 1 } else { e };
        let r = self.select_range_exec(s, lo, e);
        proof {
            if e <= scope {
                assert(select_range(self.src(), s.selector(), lo as int, e as int) == select_range(self.src(), s.selector(), scope + 1, e as int));
            }
            lemma_select_range_bounds(self.src(), s.selector(), lo as int, e as int);
            assert forall|k: int| 0 <= k < r@.len() implies #[trigger] r@[k] < elems(self.src()).len() by {
                assert(r@.map_values(|j: usize| j as int)[k] == r@[k] as int);
            }
        }
        r
    }

    /// The first element of the whole document in the selection.
    pub fn first_all(&self, s: &Selection) -> (r: Option<usize>)
        requires
            self.wf(),
            s.for_doc(self),
        ensures
            opt_index(r) == first_of(select_doc(self.src(), s.selector())),
            r matches Some(i) ==> i < elems(self.src()).len(),
    {
        let v = self.select_all(s);
        if v.len() > 0 {
            assert(v@.map_values(|j: usize| j as int)[0] == v@[0] as int);
            Some(v[0])
        } else {
            None
        }
    }

    /// The first descendant of element `scope` in the selection.
    pub fn first_in(&self, s: &Selection, scope: usize) -> (r: Option<usize>)
        requires
            self.wf(),
            s.for_doc(self),
            scope < elems(self.src()).len(),
        ensures
            opt_index(r) == first_of(select_in(self.src(), s.selector(), scope as int)),
            r matches Some(i) ==> i < elems(self.src()).len(),
    {
        let v = self.select_in(s, scope);
        if v.len() > 0 {
            assert(v@.map_values(|j: usize| j as int)[0] == v@[0] as int);
            Some(v[0])
        } else {
            None
        }
    }

    /// The text of element `i`.
    pub fn text(&self, i: usize) -> (t: &str)
        requires
            self.wf(),
            i < elems(self.src()).len(),
        ensures
            t@ == text_of(self.src(), i as int),
    {
        proof {
            assert(self.elements@[i as int]@ == elems(self.src())[i as int]);
        }
        self.elements[i].text.as_str()
    }

    /// The first text node of element `i`.
    pub fn first_text(&self, i: usize) -> (t: Option<&str>)
        requires
            self.wf(),
            i < elems(self.src()).len(),
        ensures
            match t {
                Some(x) => elems(self.src())[i as int].first_text == Some(x@),
                None => elems(self.src())[i as int].first_text is None,
            },
    {
        proof {
            assert(self.elements@[i as int]@ == elems(self.src())[i as int]);
        }
        match &self.elements[i].first_text {
            Some(x) => Some(x.as_str()),
            None => None,
        }
    }

    /// The serialised children of element `i`.
    pub fn inner_html(&self, i: usize) -> (t: &str)
        requires
            self.wf(),
            i < elems(self.src()).len(),
        ensures
            t@ == elems(self.src())[i as int].inner_html,
    {
        proof {
            assert(self.elements@[i as int]@ == elems(self.src())[i as int]);
        }
        self.elements[i].inner_html.as_str()
    }

    /// The text of element `i` with surrounding white space removed.
    pub fn trimmed_text(&self, i: usize) -> (t: String)
        requires
            self.wf(),
            i < elems(self.src()).len(),
        ensures
            t@ == trim_seq(text_of(self.src(), i as int)),
    {
        proof {
            assert(self.elements@[i as int]@ == elems(self.src())[i as int]);
        }
        trim(self.elements[i].text.as_str())
    }

    /// Attribute `k` of element `i`.
    pub fn attr(&self, i: usize, k: usize) -> (a: Option<String>)
        requires
            self.wf(),
            i < elems(self.src()).len(),
        ensures
            opt_str_view(a) == attr_of(self.src(), i as int, k as int),
    {
        proof {
            assert(self.elements@[i as int]@ == elems(self.src())[i as int]);
        }
        let e = &self.elements[i];
        if k < e.attrs.len() {
            proof {
                assert(e@.attrs[k as int] == opt_str_view(e.attrs@[k as int]));
            }
            match &e.attrs[k] {
                Some(v) => Some(v.clone()),
                None => None,
            }
        } else {
            None
        }
    }

    /// Attribute `k` of element `i`, or the empty string when absent.
    pub fn attr_or_empty(&self, i: usize, k: usize) -> (a: String)
        requires
            self.wf(),
            i < elems(self.src()).len(),
        ensures
            a@ == attr_or_empty(self.src(), i as int, k as int),
    {
        match self.attr(i, k) {
            Some(v) => v,
            None => String::new(),
        }
    }
}

/// The view of an optional index.
pub open spec fn opt_index(r: Option<usize>) -> Option<int> {
    match r {
        Some(i) => Some(i as int),
        None => None,
    }
}

/// Attribute `k` of element `i`, or the empty string when absent.
pub open spec fn attr_or_empty(src: Seq<char>, i: int, k: int) -> Seq<char> {
    match attr_of(src, i, k) {
        Some(v) => v,
        None => Seq::empty(),
    }
}

/// The elements that a CSS selector matches in a document.
pub struct Selection {
    flags: Vec<bool>,
    pattern: String,
}

impl Selection {
    /// The selector text.
    pub closed spec fn selector(&self) -> Seq<char> {
        self.pattern@
    }

    /// The match flags.
    pub closed spec fn flag_seq(&self) -> Seq<bool> {
        self.flags@
    }

    /// The flags are those of the selector over `d`.
    pub open spec fn for_doc(&self, d: &Document) -> bool {
        self.flag_seq() == flags(d.src(), self.selector())
    }
}

} // verus!
