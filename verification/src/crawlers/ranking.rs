//! Ranking pages: songs or singers, the list's name and the pagination.

use vstd::prelude::*;
use crate::crawlers::common::{
    doc_table_rows, doc_table_rows_spec, first_attr_or_empty, first_text_or_empty, idx_view,
    int_or, opt_attr, opt_trimmed_text, song_id_from_url, song_id_of_url, text_int_or,
};
use crate::dom::{
    ATTR_CLASS, ATTR_HREF, ATTR_SRC, Document, Selection, attr_of, attr_or_empty, elems, first_of,
    opt_index, select_doc, select_in, text_of,
};
use crate::models::{NameTable, get_ranking_types, ranking_types_map};
use crate::numbers::{all_digits, digits_value, int_decimal, is_digit, i32_to_string, lemma_digits_value_nonneg, parse_i32, parse_i32_seq};
use crate::pattern::{matched_group, matched_group_exec, opt_str_view, regex_captures_of};
use crate::text::{concat, contains, owned, seq_contains, str_eq, trim_seq};

verus! {

/// A song of a ranking list.
pub struct SongRank {
    pub rank: i32,
    pub title: String,
    pub artist: String,
    pub song_id: i64,
    pub cover_url: String,
    pub song_url: String,
}

/// View of a [`SongRank`]: rank, title, artist, song id, cover, address.
pub type SongRankView = (i32, Seq<char>, Seq<char>, i64, Seq<char>, Seq<char>);

impl View for SongRank {
    type V = SongRankView;

    open spec fn view(&self) -> SongRankView {
        (self.rank, self.title@, self.artist@, self.song_id, self.cover_url@, self.song_url@)
    }
}

/// A singer of the singer ranking.
pub struct SingerRank {
    pub rank: i32,
    pub name: String,
    pub avatar_url: String,
    pub songs_url: String,
}

/// View of a [`SingerRank`]: rank, name, avatar, songs address.
pub type SingerRankView = (i32, Seq<char>, Seq<char>, Seq<char>);

impl View for SingerRank {
    type V = SingerRankView;

    open spec fn view(&self) -> SingerRankView {
        (self.rank, self.name@, self.avatar_url@, self.songs_url@)
    }
}

/// Pagination of a ranking page.
pub struct Pagination {
    pub current_page: i32,
    pub total_pages: i32,
    pub total_songs: i32,
    pub has_prev: bool,
    pub has_next: bool,
    pub first_page_url: Option<String>,
    pub prev_page_url: Option<String>,
    pub next_page_url: Option<String>,
    pub last_page_url: Option<String>,
}

/// Mathematical view of a [`Pagination`].
pub struct PaginationView {
    pub current_page: i32,
    pub total_pages: i32,
    pub total_songs: i32,
    pub has_prev: bool,
    pub has_next: bool,
    pub first_page_url: Option<Seq<char>>,
    pub prev_page_url: Option<Seq<char>>,
    pub next_page_url: Option<Seq<char>>,
    pub last_page_url: Option<Seq<char>>,
}

impl View for Pagination {
    type V = PaginationView;

    open spec fn view(&self) -> PaginationView {
        PaginationView {
            current_page: self.current_page,
            total_pages: self.total_pages,
            total_songs: self.total_songs,
            has_prev: self.has_prev,
            has_next: self.has_next,
            first_page_url: opt_str_view(self.first_page_url),
            prev_page_url: opt_str_view(self.prev_page_url),
            next_page_url: opt_str_view(self.next_page_url),
            last_page_url: opt_str_view(self.last_page_url),
        }
    }
}

/// The data of one ranking page.
pub struct RankingPageData {
    pub ranking_name: String,
    pub songs: Vec<SongRank>,
    pub singers: Vec<SingerRank>,
    pub pagination: Pagination,
}

/// The view of a list of ranked songs.
pub open spec fn song_ranks_view(v: Seq<SongRank>) -> Seq<SongRankView> {
    v.map_values(|x: SongRank| x@)
}

/// The view of a list of ranked singers.
pub open spec fn singer_ranks_view(v: Seq<SingerRank>) -> Seq<SingerRankView> {
    v.map_values(|x: SingerRank| x@)
}

// ---------------------------------------------------------------------
// Specifications
// ---------------------------------------------------------------------

/// The pattern of a ranking heading: `name (共N条)`.
pub open spec fn ranking_name_pattern() -> Seq<char> {
    "(.+?)\\s*\\(共(\\d+)条\\)"@
}

/// A number parsed as `str::parse` does, or `default`.
pub open spec fn parsed_or(t: Seq<char>, default: i32) -> i32 {
    match parse_i32_seq(t) {
        Some(v) => v,
        None => default,
    }
}

/// The list's name and its entry count, read from the first `h1.text-light`:
/// the two groups of the heading pattern when it matches, else the whole
/// trimmed heading and 0; `("未知榜单", 0)` without a heading.
pub open spec fn ranking_name_spec(src: Seq<char>) -> (Seq<char>, i32) {
    match first_of(select_doc(src, "h1.text-light"@)) {
        Some(h) => {
            let t = trim_seq(text_of(src, h));
            match matched_group(ranking_name_pattern(), t, 1) {
                Some(name) => (
                    name,
                    parsed_or(matched_group(ranking_name_pattern(), t, 2).unwrap(), 0),
                ),
                None => (t, 0),
            }
        },
        None => ("未知榜单"@, 0),
    }
}

/// The cells (`td`) of a row.
pub open spec fn cells(src: Seq<char>, row: int) -> Seq<int> {
    select_in(src, "td"@, row)
}

/// A song row of four or more cells: rank, cover image, title link, artist.
pub open spec fn song_row_spec(src: Seq<char>, row: int) -> Option<SongRankView> {
    let c = cells(src, row);
    if c.len() < 4 {
        None
    } else {
        let img = first_of(select_in(src, "img"@, c[1]));
        let link = first_of(select_in(src, "a"@, c[2]));
        let url = first_attr_or_empty(src, link, ATTR_HREF as int);
        Some(
            (
                int_or(text_of(src, c[0]), 0),
                first_text_or_empty(src, link),
                trim_seq(text_of(src, c[3])),
                song_id_of_url(url),
                first_attr_or_empty(src, img, ATTR_SRC as int),
                url,
            ),
        )
    }
}

/// The songs of the given rows, skipping rows of fewer than four cells.
pub open spec fn song_rows_spec(src: Seq<char>, rows: Seq<int>) -> Seq<SongRankView>
    decreases rows.len(),
{
    if rows.len() == 0 {
        Seq::empty()
    } else {
        let r = song_rows_spec(src, rows.drop_last());
        match song_row_spec(src, rows.last()) {
            Some(x) => r.push(x),
            None => r,
        }
    }
}

/// The songs of the ranking table `table#myTable`.
pub open spec fn ranking_songs_spec(src: Seq<char>) -> Seq<SongRankView> {
    song_rows_spec(src, doc_table_rows_spec(src, "table#myTable"@))
}

/// A singer row of four or more cells: rank, avatar link, name.
pub open spec fn singer_row_spec(src: Seq<char>, row: int) -> Option<SingerRankView> {
    let c = cells(src, row);
    if c.len() < 4 {
        None
    } else {
        let link = first_of(select_in(src, "a"@, c[1]));
        let img = first_of(select_in(src, "img"@, c[1]));
        Some(
            (
                int_or(text_of(src, c[0]), 0),
                trim_seq(text_of(src, c[2])),
                first_attr_or_empty(src, img, ATTR_SRC as int),
                first_attr_or_empty(src, link, ATTR_HREF as int),
            ),
        )
    }
}

/// The singers of the given rows, skipping rows of fewer than four cells.
pub open spec fn singer_rows_spec(src: Seq<char>, rows: Seq<int>) -> Seq<SingerRankView>
    decreases rows.len(),
{
    if rows.len() == 0 {
        Seq::empty()
    } else {
        let r = singer_rows_spec(src, rows.drop_last());
        match singer_row_spec(src, rows.last()) {
            Some(x) => r.push(x),
            None => r,
        }
    }
}

/// The singers of the ranking table `table#myTable`.
pub open spec fn ranking_singers_spec(src: Seq<char>) -> Seq<SingerRankView> {
    singer_rows_spec(src, doc_table_rows_spec(src, "table#myTable"@))
}

/// What the pagination buttons read so far tell.
pub struct PagState {
    pub first: Option<Seq<char>>,
    pub prev: Option<Seq<char>>,
    pub next: Option<Seq<char>>,
    pub last: Option<Seq<char>>,
    pub has_prev: bool,
    pub has_next: bool,
    pub total: i32,
}

/// Nothing read yet: one page, no buttons.
pub open spec fn pag_init() -> PagState {
    PagState {
        first: None,
        prev: None,
        next: None,
        last: None,
        has_prev: false,
        has_next: false,
        total: 1,
    }
}

/// The page count carried by the last-page address: the number after
/// `page=`, then the one after `/singer/` when present (1 when it does not
/// parse); `cur` when neither pattern matches.
pub open spec fn total_from_href(href: Seq<char>, cur: i32) -> i32 {
    let t1 = match matched_group("page=(\\d+)"@, href, 1) {
        Some(g) => parsed_or(g, 1),
        None => cur,
    };
    match matched_group("/singer/(\\d+)"@, href, 1) {
        Some(g) => parsed_or(g, 1),
        None => t1,
    }
}

/// Reading one `li.page-item`: its first link's trimmed text tells which
/// button it is (首页, 上一页, 下一页, 尾页, tried in that order); a
/// `disabled` class disables the previous or next button.
pub open spec fn pag_step(src: Seq<char>, st: PagState, item: int) -> PagState {
    match first_of(select_in(src, "a"@, item)) {
        None => st,
        Some(l) => {
            let text = trim_seq(text_of(src, l));
            let href = attr_or_empty(src, l, ATTR_HREF as int);
            let disabled = match attr_of(src, item, ATTR_CLASS as int) {
                Some(c) => seq_contains(c, "disabled"@),
                None => false,
            };
            if seq_contains(text, "首页"@) {
                PagState { first: Some(href), ..st }
            } else if seq_contains(text, "上一页"@) {
                PagState { prev: Some(href), has_prev: !disabled, ..st }
            } else if seq_contains(text, "下一页"@) {
                PagState { next: Some(href), has_next: !disabled, ..st }
            } else if seq_contains(text, "尾页"@) {
                PagState { last: Some(href), total: total_from_href(href, st.total), ..st }
            } else {
                st
            }
        },
    }
}

/// Reading the given page items in order.
pub open spec fn pag_fold(src: Seq<char>, items: Seq<int>) -> PagState
    decreases items.len(),
{
    if items.len() == 0 {
        pag_init()
    } else {
        pag_step(src, pag_fold(src, items.drop_last()), items.last())
    }
}

/// The pagination of a ranking page: read from the first
/// `nav[aria-label='Page navigation']`, with the entry count of the heading;
/// without that navigation, page `current` of one with no buttons.
pub open spec fn pagination_spec(src: Seq<char>, current: i32) -> PaginationView {
    match first_of(select_doc(src, "nav[aria-label='Page navigation']"@)) {
        Some(nav) => {
            let st = pag_fold(src, select_in(src, "li.page-item"@, nav));
            PaginationView {
                current_page: current,
                total_pages: st.total,
                total_songs: ranking_name_spec(src).1,
                has_prev: st.has_prev,
                has_next: st.has_next,
                first_page_url: st.first,
                prev_page_url: st.prev,
                next_page_url: st.next,
                last_page_url: st.last,
            }
        },
        None => PaginationView {
            current_page: current,
            total_pages: 1,
            total_songs: 0,
            has_prev: false,
            has_next: false,
            first_page_url: None,
            prev_page_url: None,
            next_page_url: None,
            last_page_url: None,
        },
    }
}

/// The page items of the pagination navigation of a page, when it has one.
pub open spec fn nav_page_items(src: Seq<char>) -> Option<Seq<int>> {
    match first_of(select_doc(src, "nav[aria-label='Page navigation']"@)) {
        Some(nav) => Some(select_in(src, "li.page-item"@, nav)),
        None => None,
    }
}

/// The trimmed text of the first link of a page item, when it has a link.
pub open spec fn button_text(src: Seq<char>, item: int) -> Option<Seq<char>> {
    match first_of(select_in(src, "a"@, item)) {
        Some(l) => Some(trim_seq(text_of(src, l))),
        None => None,
    }
}

/// Whether a page item is the next-page button: its link says 下一页, and
/// it is not the first-page or the previous-page button.
pub open spec fn is_next_button(src: Seq<char>, item: int) -> bool {
    match button_text(src, item) {
        Some(t) => seq_contains(t, "下一页"@) && !seq_contains(t, "首页"@) && !seq_contains(t, "上一页"@),
        None => false,
    }
}

/// Whether a page item is the previous-page button: its link says 上一页,
/// and it is not the first-page button.
pub open spec fn is_prev_button(src: Seq<char>, item: int) -> bool {
    match button_text(src, item) {
        Some(t) => seq_contains(t, "上一页"@) && !seq_contains(t, "首页"@),
        None => false,
    }
}

/// The address of the first link of a page item (empty when it has none).
pub open spec fn button_href(src: Seq<char>, item: int) -> Seq<char> {
    match first_of(select_in(src, "a"@, item)) {
        Some(l) => attr_or_empty(src, l, ATTR_HREF as int),
        None => Seq::empty(),
    }
}

/// Whether a page item's class marks it disabled.
pub open spec fn item_disabled(src: Seq<char>, item: int) -> bool {
    match attr_of(src, item, ATTR_CLASS as int) {
        Some(c) => seq_contains(c, "disabled"@),
        None => false,
    }
}

proof fn lemma_fold_next(src: Seq<char>, items: Seq<int>, k: int)
    requires
        0 <= k < items.len(),
        is_next_button(src, items[k]),
        forall|j: int| k < j < items.len() ==> !is_next_button(src, #[trigger] items[j]),
    ensures
        pag_fold(src, items).has_next == !item_disabled(src, items[k]),
        pag_fold(src, items).next == Some(button_href(src, items[k])),
    decreases items.len(),
{
    if k < items.len() - 1 {
        assert(!is_next_button(src, items[items.len() - 1]));
        assert forall|j: int| k < j < items.drop_last().len() implies !is_next_button(src, #[trigger] items.drop_last()[j]) by {
            assert(items.drop_last()[j] == items[j]);
        }
        lemma_fold_next(src, items.drop_last(), k);
    }
}

proof fn lemma_fold_no_next(src: Seq<char>, items: Seq<int>)
    requires
        forall|j: int| 0 <= j < items.len() ==> !is_next_button(src, #[trigger] items[j]),
    ensures
        !pag_fold(src, items).has_next,
        pag_fold(src, items).next is None,
    decreases items.len(),
{
    if items.len() > 0 {
        assert(!is_next_button(src, items[items.len() - 1]));
        assert forall|j: int| 0 <= j < items.drop_last().len() implies !is_next_button(src, #[trigger] items.drop_last()[j]) by {
            assert(items.drop_last()[j] == items[j]);
        }
        lemma_fold_no_next(src, items.drop_last());
    }
}

proof fn lemma_fold_prev(src: Seq<char>, items: Seq<int>, k: int)
    requires
        0 <= k < items.len(),
        is_prev_button(src, items[k]),
        forall|j: int| k < j < items.len() ==> !is_prev_button(src, #[trigger] items[j]),
    ensures
        pag_fold(src, items).has_prev == !item_disabled(src, items[k]),
        pag_fold(src, items).prev == Some(button_href(src, items[k])),
    decreases items.len(),
{
    if k < items.len() - 1 {
        assert(!is_prev_button(src, items[items.len() - 1]));
        assert forall|j: int| k < j < items.drop_last().len() implies !is_prev_button(src, #[trigger] items.drop_last()[j]) by {
            assert(items.drop_last()[j] == items[j]);
        }
        lemma_fold_prev(src, items.drop_last(), k);
    }
}

proof fn lemma_fold_no_prev(src: Seq<char>, items: Seq<int>)
    requires
        forall|j: int| 0 <= j < items.len() ==> !is_prev_button(src, #[trigger] items[j]),
    ensures
        !pag_fold(src, items).has_prev,
        pag_fold(src, items).prev is None,
    decreases items.len(),
{
    if items.len() > 0 {
        assert(!is_prev_button(src, items[items.len() - 1]));
        assert forall|j: int| 0 <= j < items.drop_last().len() implies !is_prev_button(src, #[trigger] items.drop_last()[j]) by {
            assert(items.drop_last()[j] == items[j]);
        }
        lemma_fold_no_prev(src, items.drop_last());
    }
}

/// The next-page button decides whether a page has a next page: the page
/// has one exactly when the last next-page button of its navigation is not
/// disabled, so a disabled 下一页 button means there is no next page; the
/// next page's address is that button's link.
pub proof fn lemma_next_button_decides_has_next(src: Seq<char>, current: i32, k: int)
    requires
        nav_page_items(src) matches Some(items) && 0 <= k < items.len() && is_next_button(src, items[k])
            && forall|j: int| k < j < items.len() ==> !is_next_button(src, #[trigger] items[j]),
    ensures
        pagination_spec(src, current).has_next == !item_disabled(src, nav_page_items(src).unwrap()[k]),
        pagination_spec(src, current).next_page_url == Some(button_href(src, nav_page_items(src).unwrap()[k])),
{
    lemma_fold_next(src, nav_page_items(src).unwrap(), k);
}

/// A page whose navigation has no next-page button, or that has no
/// navigation, has no next page and no next-page address.
pub proof fn lemma_no_next_button_no_next_page(src: Seq<char>, current: i32)
    requires
        nav_page_items(src) matches Some(items) ==> forall|j: int| 0 <= j < items.len() ==> !is_next_button(src, #[trigger] items[j]),
    ensures
        !pagination_spec(src, current).has_next,
        pagination_spec(src, current).next_page_url is None,
{
    if nav_page_items(src) is Some {
        lemma_fold_no_next(src, nav_page_items(src).unwrap());
    }
}

/// The previous-page button decides whether a page has a previous page:
/// it has one exactly when the last previous-page button of its navigation
/// is not disabled; the previous page's address is that button's link.
pub proof fn lemma_prev_button_decides_has_prev(src: Seq<char>, current: i32, k: int)
    requires
        nav_page_items(src) matches Some(items) && 0 <= k < items.len() && is_prev_button(src, items[k])
            && forall|j: int| k < j < items.len() ==> !is_prev_button(src, #[trigger] items[j]),
    ensures
        pagination_spec(src, current).has_prev == !item_disabled(src, nav_page_items(src).unwrap()[k]),
        pagination_spec(src, current).prev_page_url == Some(button_href(src, nav_page_items(src).unwrap()[k])),
{
    lemma_fold_prev(src, nav_page_items(src).unwrap(), k);
}

/// A page whose navigation has no previous-page button, or that has no
/// navigation, has no previous page and no previous-page address.
pub proof fn lemma_no_prev_button_no_prev_page(src: Seq<char>, current: i32)
    requires
        nav_page_items(src) matches Some(items) ==> forall|j: int| 0 <= j < items.len() ==> !is_prev_button(src, #[trigger] items[j]),
    ensures
        !pagination_spec(src, current).has_prev,
        pagination_spec(src, current).prev_page_url is None,
{
    if nav_page_items(src) is Some {
        lemma_fold_no_prev(src, nav_page_items(src).unwrap());
    }
}

/// Whether a page item is the last-page button: its link says 尾页, and it
/// is none of the first-page, previous-page and next-page buttons.
pub open spec fn is_last_button(src: Seq<char>, item: int) -> bool {
    match button_text(src, item) {
        Some(t) => seq_contains(t, "尾页"@) && !seq_contains(t, "首页"@) && !seq_contains(t, "上一页"@)
            && !seq_contains(t, "下一页"@),
        None => false,
    }
}

/// The number that the `regex` crate's first match of `pattern` in `text`
/// captures as its group 1, when that group is a decimal numeral whose
/// value fits an `i32`.
pub open spec fn captured_number(pattern: Seq<char>, text: Seq<char>) -> Option<int> {
    match regex_captures_of(pattern, text) {
        Some(g) => if g.len() > 1 && g[1] is Some && g[1].unwrap().len() > 0 && all_digits(g[1].unwrap())
            && digits_value(g[1].unwrap()) <= i32::MAX {
            Some(digits_value(g[1].unwrap()))
        } else {
            None
        },
        None => None,
    }
}

proof fn lemma_captured_number_parses(pattern: Seq<char>, text: Seq<char>)
    ensures
        captured_number(pattern, text) matches Some(n) ==> matched_group(pattern, text, 1) matches Some(g)
            && parsed_or(g, 1) == n,
{
    if let Some(g) = regex_captures_of(pattern, text) {
        if g.len() > 1 && g[1] is Some && g[1].unwrap().len() > 0 && all_digits(g[1].unwrap()) {
            let digits = g[1].unwrap();
            lemma_digits_value_nonneg(digits);
            assert(is_digit(digits[0]));
            assert(('+' as u32) == 43 && ('-' as u32) == 45);
        }
    }
}

proof fn lemma_fold_last(src: Seq<char>, items: Seq<int>, k: int)
    requires
        0 <= k < items.len(),
        is_last_button(src, items[k]),
        forall|j: int| k < j < items.len() ==> !is_last_button(src, #[trigger] items[j]),
    ensures
        pag_fold(src, items).last == Some(button_href(src, items[k])),
        pag_fold(src, items).total == total_from_href(button_href(src, items[k]), pag_fold(src, items.take(k)).total),
    decreases items.len(),
{
    if k < items.len() - 1 {
        assert(!is_last_button(src, items[items.len() - 1]));
        assert forall|j: int| k < j < items.drop_last().len() implies !is_last_button(src, #[trigger] items.drop_last()[j]) by {
            assert(items.drop_last()[j] == items[j]);
        }
        assert(items.drop_last().take(k) =~= items.take(k));
        lemma_fold_last(src, items.drop_last(), k);
    } else {
        assert(items.drop_last() =~= items.take(k));
    }
}

/// The last-page button gives the page count: on a page whose navigation
/// has a 尾页 button (the last one when there are several), the last-page
/// address is its link, and the page count is the number that the `regex`
/// crate reads in that link after `/singer/`, or, when `/singer/(\d+)`
/// does not match, after `page=`.
pub proof fn lemma_last_button_gives_page_count(src: Seq<char>, current: i32, k: int)
    requires
        nav_page_items(src) matches Some(items) && 0 <= k < items.len() && is_last_button(src, items[k])
            && forall|j: int| k < j < items.len() ==> !is_last_button(src, #[trigger] items[j]),
    ensures
        ({
            let href = button_href(src, nav_page_items(src).unwrap()[k]);
            &&& pagination_spec(src, current).last_page_url == Some(href)
            &&& captured_number("/singer/(\\d+)"@, href) matches Some(n) ==> pagination_spec(src, current).total_pages == n
            &&& (regex_captures_of("/singer/(\\d+)"@, href) is None && captured_number("page=(\\d+)"@, href) is Some)
                ==> pagination_spec(src, current).total_pages == captured_number("page=(\\d+)"@, href).unwrap()
        }),
{
    let items = nav_page_items(src).unwrap();
    let href = button_href(src, items[k]);
    lemma_fold_last(src, items, k);
    lemma_captured_number_parses("/singer/(\\d+)"@, href);
    lemma_captured_number_parses("page=(\\d+)"@, href);
}

/// Whether a page item is the first-page button: its link says 首页.
pub open spec fn is_first_button(src: Seq<char>, item: int) -> bool {
    match button_text(src, item) {
        Some(t) => seq_contains(t, "首页"@),
        None => false,
    }
}

proof fn lemma_fold_first(src: Seq<char>, items: Seq<int>, k: int)
    requires
        0 <= k < items.len(),
        is_first_button(src, items[k]),
        forall|j: int| k < j < items.len() ==> !is_first_button(src, #[trigger] items[j]),
    ensures
        pag_fold(src, items).first == Some(button_href(src, items[k])),
    decreases items.len(),
{
    if k < items.len() - 1 {
        assert(!is_first_button(src, items[items.len() - 1]));
        assert forall|j: int| k < j < items.drop_last().len() implies !is_first_button(src, #[trigger] items.drop_last()[j]) by {
            assert(items.drop_last()[j] == items[j]);
        }
        lemma_fold_first(src, items.drop_last(), k);
    }
}

/// The first-page address of a page is the link of the 首页 button of its
/// navigation (the last one when there are several).
pub proof fn lemma_first_button_gives_first_page(src: Seq<char>, current: i32, k: int)
    requires
        nav_page_items(src) matches Some(items) && 0 <= k < items.len() && is_first_button(src, items[k])
            && forall|j: int| k < j < items.len() ==> !is_first_button(src, #[trigger] items[j]),
    ensures
        pagination_spec(src, current).first_page_url == Some(button_href(src, nav_page_items(src).unwrap()[k])),
{
    lemma_fold_first(src, nav_page_items(src).unwrap(), k);
}

/// A page is the singer ranking when its list's name mentions 歌手.
pub open spec fn is_singer_page(src: Seq<char>) -> bool {
    seq_contains(ranking_name_spec(src).0, "歌手"@)
}

/// The address of page `page` of the ranking `ranking_type`.
pub open spec fn ranking_url_spec(ranking_type: Seq<char>, page: i32) -> Seq<char> {
    if ranking_type == "singer"@ {
        if page > 1 {
            "https://www.gequke.com/singer/"@ + int_decimal(page as int)
        } else {
            "https://www.gequke.com/singer/"@
        }
    } else {
        let base = "https://www.gequke.com/top/"@ + ranking_type;
        if page > 1 {
            base + "?page="@ + int_decimal(page as int)
        } else {
            base
        }
    }
}

// ---------------------------------------------------------------------
// Implementation
// ---------------------------------------------------------------------

/// Why a ranking page cannot be fetched.
pub enum RankingError {
    /// The ranking type is not one of the supported ones.
    InvalidRankingType(String),
}

/// The default `User-Agent` of the ranking crawler.
pub open spec fn ranking_default_agent() -> Seq<char> {
    "Mozilla/5.0 (Windows NT 10.0; Win64; x64) AppleWebKit/537.36"@
}

/// Crawler of the ranking pages.
pub struct RankingCrawler {
    cookie: Option<String>,
    user_agent: String,
    ranking_types: NameTable,
}

fn song_row(doc: &Document, td: &Selection, img: &Selection, a: &Selection, row: usize) -> (r: Option<SongRank>)
    requires
        doc.wf(),
        td.for_doc(doc),
        td.selector() == "td"@,
        img.for_doc(doc),
        img.selector() == "img"@,
        a.for_doc(doc),
        a.selector() == "a"@,
        row < elems(doc.src()).len(),
    ensures
        match r {
            Some(x) => song_row_spec(doc.src(), row as int) == Some(x@),
            None => song_row_spec(doc.src(), row as int) is None,
        },
{
    let c = doc.select_in(td, row);
    let ghost cv = cells(doc.src(), row as int);
    if c.len() < 4 {
        return None;
    }
    assert(cv[0] == c[0] as int && cv[1] == c[1] as int && cv[2] == c[2] as int && cv[3] == c[3] as int);
    let rank = text_int_or(doc, c[0], 0);
    let im = doc.first_in(img, c[1]);
    let cover_url = opt_attr(doc, im, ATTR_SRC);
    let link = doc.first_in(a, c[2]);
    let title = opt_trimmed_text(doc, link);
    let song_url = opt_attr(doc, link, ATTR_HREF);
    let song_id = song_id_from_url(song_url.as_str());
    let artist = doc.trimmed_text(c[3]);
    Some(SongRank { rank, title, artist, song_id, cover_url, song_url })
}

fn singer_row(doc: &Document, td: &Selection, img: &Selection, a: &Selection, row: usize) -> (r: Option<SingerRank>)
    requires
        doc.wf(),
        td.for_doc(doc),
        td.selector() == "td"@,
        img.for_doc(doc),
        img.selector() == "img"@,
        a.for_doc(doc),
        a.selector() == "a"@,
        row < elems(doc.src()).len(),
    ensures
        match r {
            Some(x) => singer_row_spec(doc.src(), row as int) == Some(x@),
            None => singer_row_spec(doc.src(), row as int) is None,
        },
{
    let c = doc.select_in(td, row);
    let ghost cv = cells(doc.src(), row as int);
    if c.len() < 4 {
        return None;
    }
    assert(cv[0] == c[0] as int && cv[1] == c[1] as int && cv[2] == c[2] as int);
    let rank = text_int_or(doc, c[0], 0);
    let link = doc.first_in(a, c[1]);
    let im = doc.first_in(img, c[1]);
    let avatar_url = opt_attr(doc, im, ATTR_SRC);
    let songs_url = opt_attr(doc, link, ATTR_HREF);
    let name = doc.trimmed_text(c[2]);
    Some(SingerRank { rank, name, avatar_url, songs_url })
}

fn last_page_total(href: &str, cur: i32) -> (t: i32)
    ensures
        t == total_from_href(href@, cur),
{
    let mut total = cur;
    match matched_group_exec("page=(\\d+)", href, 1) {
        Some(g) => {
            total = match parse_i32(g.as_str()) {
                Some(v) => v,
                None => 1,
            };
        },
        None => {},
    }
    match matched_group_exec("/singer/(\\d+)", href, 1) {
        Some(g) => {
            total = match parse_i32(g.as_str()) {
                Some(v) => v,
                None => 1,
            };
        },
        None => {},
    }
    total
}

impl RankingCrawler {
    /// The cookie sent with requests.
    pub closed spec fn cookie_view(&self) -> Option<Seq<char>> {
        opt_str_view(self.cookie)
    }

    /// The `User-Agent` sent with requests.
    pub closed spec fn agent_view(&self) -> Seq<char> {
        self.user_agent@
    }

    /// The table of ranking types.
    pub closed spec fn types_view(&self) -> Map<Seq<char>, Seq<char>> {
        self.ranking_types@
    }

    /// A crawler with the given cookie and `User-Agent` (a default one when
    /// none is given), knowing the seven ranking types.
    pub fn new(cookie: Option<String>, user_agent: Option<String>) -> (c: Self)
        ensures
            c.cookie_view() == opt_str_view(cookie),
            c.agent_view() == match user_agent {
                Some(ua) => ua@,
                None => ranking_default_agent(),
            },
            c.types_view() == ranking_types_map(),
    {
        let ua = match user_agent {
            Some(ua) => ua,
            None => owned("Mozilla/5.0 (Windows NT 10.0; Win64; x64) AppleWebKit/537.36"),
        };
        RankingCrawler { cookie, user_agent: ua, ranking_types: get_ranking_types() }
    }

    /// The supported ranking types.
    pub fn get_ranking_types(&self) -> (t: &NameTable)
        ensures
            t@ == self.types_view(),
    {
        &self.ranking_types
    }

    /// The cookie to send, if any.
    pub fn get_cookies(&self) -> (c: Option<String>)
        ensures
            opt_str_view(c) == self.cookie_view(),
    {
        match &self.cookie {
            Some(c) => Some(c.clone()),
            None => None,
        }
    }

    /// The `User-Agent` to send.
    pub fn user_agent(&self) -> (u: String)
        ensures
            u@ == self.agent_view(),
    {
        self.user_agent.clone()
    }

    /// The address of page `page` of the ranking `ranking_type`; an error
    /// for a type the crawler does not know.
    pub fn ranking_page_url(&self, ranking_type: &str, page: i32) -> (r: Result<String, RankingError>)
        ensures
            match r {
                Ok(u) => self.types_view().contains_key(ranking_type@) && u@ == ranking_url_spec(
                    ranking_type@,
                    page,
                ),
                Err(RankingError::InvalidRankingType(t)) => !self.types_view().contains_key(
                    ranking_type@,
                ) && t@ == ranking_type@,
            },
    {
        if !self.ranking_types.contains_key(ranking_type) {
            return Err(RankingError::InvalidRankingType(owned(ranking_type)));
        }
        if str_eq(ranking_type, "singer") {
            if page > 1 {
                Ok(concat("https://www.gequke.com/singer/", i32_to_string(page).as_str()))
            } else {
                Ok(owned("https://www.gequke.com/singer/"))
            }
        } else {
            let base = concat("https://www.gequke.com/top/", ranking_type);
            if page > 1 {
                let with_query = concat(base.as_str(), "?page=");
                Ok(concat(with_query.as_str(), i32_to_string(page).as_str()))
            } else {
                Ok(base)
            }
        }
    }

    /// The list's name and entry count, from the page heading.
    pub fn extract_ranking_name(&self, doc: &Document) -> (r: (String, i32))
        requires
            doc.wf(),
        ensures
            (r.0@, r.1) == ranking_name_spec(doc.src()),
    {
        let h1 = doc.selection("h1.text-light");
        match doc.first_all(&h1) {
            Some(h) => {
                let t = doc.trimmed_text(h);
                match matched_group_exec("(.+?)\\s*\\(共(\\d+)条\\)", t.as_str(), 1) {
                    Some(name) => {
                        let count = match matched_group_exec("(.+?)\\s*\\(共(\\d+)条\\)", t.as_str(), 2) {
                            Some(g) => match parse_i32(g.as_str()) {
                                Some(v) => v,
                                None => 0,
                            },
                            None => 0,
                        };
                        (name, count)
                    },
                    None => (t, 0),
                }
            },
            None => (owned("未知榜单"), 0),
        }
    }

    /// The songs of the ranking table.
    pub fn extract_songs(&self, doc: &Document) -> (r: Vec<SongRank>)
        requires
            doc.wf(),
        ensures
            song_ranks_view(r@) == ranking_songs_spec(doc.src()),
    {
        let rows = doc_table_rows(doc, "table#myTable");
        let td = doc.selection("td");
        let img = doc.selection("img");
        let a = doc.selection("a");
        let ghost rv = idx_view(rows@);
        let mut out: Vec<SongRank> = Vec::new();
        let mut k: usize = 0;
        assert(rv.take(0) =~= Seq::<int>::empty());
        while k < rows.len()
            invariant
                doc.wf(),
                td.for_doc(doc),
                td.selector() == "td"@,
                img.for_doc(doc),
                img.selector() == "img"@,
                a.for_doc(doc),
                a.selector() == "a"@,
                rv == idx_view(rows@),
                rv == doc_table_rows_spec(doc.src(), "table#myTable"@),
                forall|m: int| 0 <= m < rows@.len() ==> #[trigger] rows@[m] < elems(doc.src()).len(),
                k <= rows@.len(),
                song_ranks_view(out@) == song_rows_spec(doc.src(), rv.take(k as int)),
            decreases rows.len() - k,
        {
            assert(rv.take(k + 1).drop_last() =~= rv.take(k as int));
            assert(rv.take(k + 1).last() == rows@[k as int] as int);
            match song_row(doc, &td, &img, &a, rows[k]) {
                Some(x) => {
                    let ghost prev = out@;
                    let ghost xv = x@;
                    out.push(x);
                    assert(song_ranks_view(out@) =~= song_ranks_view(prev).push(xv));
                },
                None => {},
            }
            k = k + 1;
        }
        assert(rv.take(rows@.len() as int) =~= rv);
        out
    }

    /// The singers of the ranking table.
    pub fn extract_singers(&self, doc: &Document) -> (r: Vec<SingerRank>)
        requires
            doc.wf(),
        ensures
            singer_ranks_view(r@) == ranking_singers_spec(doc.src()),
    {
        let rows = doc_table_rows(doc, "table#myTable");
        let td = doc.selection("td");
        let img = doc.selection("img");
        let a = doc.selection("a");
        let ghost rv = idx_view(rows@);
        let mut out: Vec<SingerRank> = Vec::new();
        let mut k: usize = 0;
        assert(rv.take(0) =~= Seq::<int>::empty());
        while k < rows.len()
            invariant
                doc.wf(),
                td.for_doc(doc),
                td.selector() == "td"@,
                img.for_doc(doc),
                img.selector() == "img"@,
                a.for_doc(doc),
                a.selector() == "a"@,
                rv == idx_view(rows@),
                rv == doc_table_rows_spec(doc.src(), "table#myTable"@),
                forall|m: int| 0 <= m < rows@.len() ==> #[trigger] rows@[m] < elems(doc.src()).len(),
                k <= rows@.len(),
                singer_ranks_view(out@) == singer_rows_spec(doc.src(), rv.take(k as int)),
            decreases rows.len() - k,
        {
            assert(rv.take(k + 1).drop_last() =~= rv.take(k as int));
            assert(rv.take(k + 1).last() == rows@[k as int] as int);
            match singer_row(doc, &td, &img, &a, rows[k]) {
                Some(x) => {
                    let ghost prev = out@;
                    let ghost xv = x@;
                    out.push(x);
                    assert(singer_ranks_view(out@) =~= singer_ranks_view(prev).push(xv));
                },
                None => {},
            }
            k = k + 1;
        }
        assert(rv.take(rows@.len() as int) =~= rv);
        out
    }

    /// The pagination of a ranking page showing page `current_page`.
    pub fn extract_pagination(&self, doc: &Document, current_page: i32) -> (p: Pagination)
        requires
            doc.wf(),
        ensures
            p@ == pagination_spec(doc.src(), current_page),
    {
        let nav_sel = doc.selection("nav[aria-label='Page navigation']");
        match doc.first_all(&nav_sel) {
            Some(nav) => {
                let item_sel = doc.selection("li.page-item");
                let link_sel = doc.selection("a");
                let items = doc.select_in(&item_sel, nav);
                let ghost iv = idx_view(items@);
                let mut first_url: Option<String> = None;
                let mut prev_url: Option<String> = None;
                let mut next_url: Option<String> = None;
                let mut last_url: Option<String> = None;
                let mut has_prev = false;
                let mut has_next = false;
                let mut total_pages: i32 = 1;
                let mut k: usize = 0;
                assert(iv.take(0) =~= Seq::<int>::empty());
                while k < items.len()
                    invariant
                        doc.wf(),
                        link_sel.for_doc(doc),
                        link_sel.selector() == "a"@,
                        iv == idx_view(items@),
                        forall|m: int| 0 <= m < items@.len() ==> #[trigger] items@[m] < elems(doc.src()).len(),
                        k <= items@.len(),
                        pag_fold(doc.src(), iv.take(k as int)) == (PagState {
                            first: opt_str_view(first_url),
                            prev: opt_str_view(prev_url),
                            next: opt_str_view(next_url),
                            last: opt_str_view(last_url),
                            has_prev,
                            has_next,
                            total: total_pages,
                        }),
                    decreases items.len() - k,
                {
                    let item = items[k];
                    assert(iv.take(k + 1).drop_last() =~= iv.take(k as int));
                    assert(iv.take(k + 1).last() == item as int);
                    match doc.first_in(&link_sel, item) {
                        Some(link) => {
                            let text = doc.trimmed_text(link);
                            let href = doc.attr_or_empty(link, ATTR_HREF);
                            let is_disabled = match doc.attr(item, ATTR_CLASS) {
                                Some(c) => contains(c.as_str(), "disabled"),
                                None => false,
                            };
                            if contains(text.as_str(), "首页") {
                                first_url = Some(href);
                            } else if contains(text.as_str(), "上一页") {
                                prev_url = Some(href);
                                has_prev = !is_disabled;
                            } else if contains(text.as_str(), "下一页") {
                                next_url = Some(href);
                                has_next = !is_disabled;
                            } else if contains(text.as_str(), "尾页") {
                                total_pages = last_page_total(href.as_str(), total_pages);
                                last_url = Some(href);
                            }
                        },
                        None => {},
                    }
                    k = k + 1;
                }
                assert(iv.take(items@.len() as int) =~= iv);
                let (_, total_songs) = self.extract_ranking_name(doc);
                Pagination {
                    current_page,
                    total_pages,
                    total_songs,
                    has_prev,
                    has_next,
                    first_page_url: first_url,
                    prev_page_url: prev_url,
                    next_page_url: next_url,
                    last_page_url: last_url,
                }
            },
            None => Pagination {
                current_page,
                total_pages: 1,
                total_songs: 0,
                has_prev: false,
                has_next: false,
                first_page_url: None,
                prev_page_url: None,
                next_page_url: None,
                last_page_url: None,
            },
        }
    }

    /// All data of a ranking page showing page `current_page`: the singers
    /// when the list's name mentions 歌手, the songs otherwise.
    pub fn extract_all(&self, doc: &Document, current_page: i32) -> (d: RankingPageData)
        requires
            doc.wf(),
        ensures
            d.ranking_name@ == ranking_name_spec(doc.src()).0,
            d.pagination@ == pagination_spec(doc.src(), current_page),
            is_singer_page(doc.src()) ==> singer_ranks_view(d.singers@) == ranking_singers_spec(
                doc.src(),
            ) && d.songs@.len() == 0,
            !is_singer_page(doc.src()) ==> song_ranks_view(d.songs@) == ranking_songs_spec(
                doc.src(),
            ) && d.singers@.len() == 0,
    {
        let (ranking_name, _) = self.extract_ranking_name(doc);
        if contains(ranking_name.as_str(), "歌手") {
            RankingPageData {
                ranking_name,
                songs: Vec::new(),
                singers: self.extract_singers(doc),
                pagination: self.extract_pagination(doc, current_page),
            }
        } else {
            RankingPageData {
                ranking_name,
                songs: self.extract_songs(doc),
                singers: Vec::new(),
                pagination: self.extract_pagination(doc, current_page),
            }
        }
    }
}

/// The pages that a crawl of pages `start_page` to `end_page` fetches, in
/// order: each page from the first to the last, both included; none when
/// the first comes after the last.
pub fn pages_in_range(start_page: i32, end_page: i32) -> (pages: Vec<i32>)
    ensures
        pages@.len() == if start_page <= end_page { end_page - start_page + 1 } else { 0 },
        forall|k: int| 0 <= k < pages@.len() ==> pages@[k] == start_page + k,
{
    let mut pages: Vec<i32> = Vec::new();
    if start_page > end_page {
        return pages;
    }
    let mut p: i32 = start_page;
    loop
        invariant
            start_page <= p <= end_page,
            pages@.len() == p - start_page,
            forall|k: int| 0 <= k < pages@.len() ==> pages@[k] == start_page + k,
        decreases end_page - p,
    {
        pages.push(p);
        if p == end_page {
            return pages;
        }
        p = p + 1;
    }
}

} // verus!
