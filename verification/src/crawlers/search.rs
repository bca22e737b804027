//! Search result pages: the keyword, the result count and the songs.

use vstd::prelude::*;
use crate::crawlers::common::{
    doc_table_rows, doc_table_rows_spec, first_attr_or_empty, first_text_or_empty, idx_view,
    int_or, opt_attr, opt_trimmed_text, song_id_from_url, song_id_of_url, text_int_or,
};
use crate::dom::{
    ATTR_HREF, ATTR_VALUE, Document, Selection, attr_of, elems, first_of, select_doc, select_in,
    text_of,
};
use crate::numbers::{lemma_digits_value_nonneg, all_digits, digits_value, is_digit, parse_i32, parse_i32_seq};
use crate::pattern::{matched_group, matched_group_exec, opt_str_view, regex_captures_of};
use crate::text::{concat, owned, trim_seq};

verus! {

/// A song of a search result.
pub struct SongSearchResult {
    pub position: i32,
    pub song_id: i64,
    pub title: String,
    pub artist: String,
    pub song_url: String,
}

/// View of a [`SongSearchResult`]: position, song id, title, artist, address.
pub type SongSearchView = (i32, i64, Seq<char>, Seq<char>, Seq<char>);

impl View for SongSearchResult {
    type V = SongSearchView;

    open spec fn view(&self) -> SongSearchView {
        (self.position, self.song_id, self.title@, self.artist@, self.song_url@)
    }
}

/// Everything extracted from a search result page.
pub struct SearchResult {
    pub keyword: String,
    pub total_count: i32,
    pub songs: Vec<SongSearchResult>,
}

/// The view of a list of search results.
pub open spec fn search_songs_view(v: Seq<SongSearchResult>) -> Seq<SongSearchView> {
    v.map_values(|x: SongSearchResult| x@)
}

/// The searched keyword: the `value` of the first `input#s-input-line`
/// when it has one, else the trimmed text of the first `h1.navbar-h1`,
/// else empty.
pub open spec fn keyword_spec(src: Seq<char>) -> Seq<char> {
    let from_input = match first_of(select_doc(src, "input#s-input-line"@)) {
        Some(i) => attr_of(src, i, ATTR_VALUE as int),
        None => None,
    };
    match from_input {
        Some(v) => v,
        None => match first_of(select_doc(src, "h1.navbar-h1"@)) {
            Some(h) => trim_seq(text_of(src, h)),
            None => Seq::empty(),
        },
    }
}

/// The pattern of the result count: 共找到 N 条.
pub open spec fn total_count_pattern() -> Seq<char> {
    "共找到\\s*(\\d+)\\s*条"@
}

/// The result count read from the first `div.quote-warning` (0 when absent
/// or unreadable).
pub open spec fn total_count_spec(src: Seq<char>) -> i32 {
    match first_of(select_doc(src, "div.quote-warning"@)) {
        Some(d) => match matched_group(total_count_pattern(), text_of(src, d), 1) {
            Some(g) => match parse_i32_seq(g) {
                Some(v) => v,
                None => 0,
            },
            None => 0,
        },
        None => 0,
    }
}

/// The announced result count is the number written after 共找到 in the
/// first `div.quote-warning`, however many digits it has: when the `regex`
/// crate's first match of `共找到\s*(\d+)\s*条` in that text captures
/// digits whose value fits an `i32`, the count is that value; without a
/// match, or without such a block, the count is 0.
pub proof fn lemma_total_count_reads_the_digits(src: Seq<char>)
    ensures
        match first_of(select_doc(src, "div.quote-warning"@)) {
            Some(d) => match regex_captures_of("共找到\\s*(\\d+)\\s*条"@, text_of(src, d)) {
                Some(g) => (g.len() > 1 && g[1] is Some && g[1].unwrap().len() > 0 && all_digits(g[1].unwrap())
                    && digits_value(g[1].unwrap()) <= i32::MAX) ==> total_count_spec(src) == digits_value(g[1].unwrap()),
                None => total_count_spec(src) == 0,
            },
            None => total_count_spec(src) == 0,
        },
{
    match first_of(select_doc(src, "div.quote-warning"@)) {
        Some(d) => match regex_captures_of("共找到\\s*(\\d+)\\s*条"@, text_of(src, d)) {
            Some(g) => {
                if g.len() > 1 && g[1] is Some {
                    let digits = g[1].unwrap();
                    if digits.len() > 0 && all_digits(digits) {
                        lemma_digits_value_nonneg(digits);
                        assert(is_digit(digits[0]));
                        assert(('+' as u32) == 43 && ('-' as u32) == 45);
                    }
                }
            },
            None => {},
        },
        None => {},
    }
}

/// A result row of three or more cells: position, title link, artist.
pub open spec fn result_row_spec(src: Seq<char>, row: int) -> Option<SongSearchView> {
    let c = select_in(src, "td"@, row);
    if c.len() < 3 {
        None
    } else {
        let link = first_of(select_in(src, "a"@, c[1]));
        let url = first_attr_or_empty(src, link, ATTR_HREF as int);
        Some(
            (
                int_or(text_of(src, c[0]), 0),
                song_id_of_url(url),
                first_text_or_empty(src, link),
                trim_seq(text_of(src, c[2])),
                url,
            ),
        )
    }
}

/// The results of the given rows, skipping rows of fewer than three cells.
pub open spec fn result_rows_spec(src: Seq<char>, rows: Seq<int>) -> Seq<SongSearchView>
    decreases rows.len(),
{
    if rows.len() == 0 {
        Seq::empty()
    } else {
        let r = result_rows_spec(src, rows.drop_last());
        match result_row_spec(src, rows.last()) {
            Some(x) => r.push(x),
            None => r,
        }
    }
}

/// The songs of the result table `table#myTables`.
pub open spec fn search_songs_spec(src: Seq<char>) -> Seq<SongSearchView> {
    result_rows_spec(src, doc_table_rows_spec(src, "table#myTables"@))
}

/// The address of the search for `keyword`.
pub open spec fn search_url_spec(keyword: Seq<char>) -> Seq<char> {
    "https://www.gequke.com/ss/"@ + keyword
}

/// The default `User-Agent` of the search crawler.
pub open spec fn search_default_agent() -> Seq<char> {
    "Mozilla/5.0 (Windows NT 10.0; Win64; x64) AppleWebKit/537.36 (KHTML, like Gecko) Chrome/131.0.0.0 Safari/537.36"@
}

/// Crawler of the search pages.
pub struct SearchCrawler {
    cookie: Option<String>,
    user_agent: String,
}

fn result_row(doc: &Document, td: &Selection, a: &Selection, row: usize) -> (r: Option<SongSearchResult>)
    requires
        doc.wf(),
        td.for_doc(doc),
        td.selector() == "td"@,
        a.for_doc(doc),
        a.selector() == "a"@,
        row < elems(doc.src()).len(),
    ensures
        match r {
            Some(x) => result_row_spec(doc.src(), row as int) == Some(x@),
            None => result_row_spec(doc.src(), row as int) is None,
        },
{
    let c = doc.select_in(td, row);
    let ghost cv = select_in(doc.src(), "td"@, row as int);
    if c.len() < 3 {
        return None;
    }
    assert(cv[0] == c[0] as int && cv[1] == c[1] as int && cv[2] == c[2] as int);
    let position = text_int_or(doc, c[0], 0);
    let link = doc.first_in(a, c[1]);
    let title = opt_trimmed_text(doc, link);
    let song_url = opt_attr(doc, link, ATTR_HREF);
    let song_id = song_id_from_url(song_url.as_str());
    let artist = doc.trimmed_text(c[2]);
    Some(SongSearchResult { position, song_id, title, artist, song_url })
}

impl SearchCrawler {
    /// The cookie sent with requests.
    pub closed spec fn cookie_view(&self) -> Option<Seq<char>> {
        opt_str_view(self.cookie)
    }

    /// The `User-Agent` sent with requests.
    pub closed spec fn agent_view(&self) -> Seq<char> {
        self.user_agent@
    }

    /// A crawler with the given cookie and `User-Agent` (a default one when
    /// none is given).
    pub fn new(cookie: Option<String>, user_agent: Option<String>) -> (c: Self)
        ensures
            c.cookie_view() == opt_str_view(cookie),
            c.agent_view() == match user_agent {
                Some(ua) => ua@,
                None => search_default_agent(),
            },
    {
        let ua = match user_agent {
            Some(ua) => ua,
            None => owned(
                "Mozilla/5.0 (Windows NT 10.0; Win64; x64) AppleWebKit/537.36 (KHTML, like Gecko) Chrome/131.0.0.0 Safari/537.36",
            ),
        };
        SearchCrawler { cookie, user_agent: ua }
    }

    /// The cookie to send, if any.
    pub fn get_cookies(&self) -> (c: Option<String>)
        ensures
            opt_str_view(c) == self.cookie_view(),
    {
        match &self.cookie {
            Some(c) => Some(c.clone()),
            None => None,
        }
    }

    /// The `User-Agent` to send.
    pub fn user_agent(&self) -> (u: String)
        ensures
            u@ == self.agent_view(),
    {
        self.user_agent.clone()
    }

    /// The address of the search for `keyword`.
    pub fn search_url(&self, keyword: &str) -> (u: String)
        ensures
            u@ == search_url_spec(keyword@),
    {
        concat("https://www.gequke.com/ss/", keyword)
    }

    /// The searched keyword.
    pub fn extract_keyword(&self, doc: &Document) -> (k: String)
        requires
            doc.wf(),
        ensures
            k@ == keyword_spec(doc.src()),
    {
        let input_sel = doc.selection("input#s-input-line");
        match doc.first_all(&input_sel) {
            Some(i) => match doc.attr(i, ATTR_VALUE) {
                Some(v) => {
                    return v;
                },
                None => {},
            },
            None => {},
        }
        let h1_sel = doc.selection("h1.navbar-h1");
        match doc.first_all(&h1_sel) {
            Some(h) => doc.trimmed_text(h),
            None => String::new(),
        }
    }

    /// The number of results announced on the page.
    pub fn extract_total_count(&self, doc: &Document) -> (n: i32)
        requires
            doc.wf(),
        ensures
            n == total_count_spec(doc.src()),
    {
        let div_sel = doc.selection("div.quote-warning");
        match doc.first_all(&div_sel) {
            Some(d) => match matched_group_exec("共找到\\s*(\\d+)\\s*条", doc.text(d), 1) {
                Some(g) => match parse_i32(g.as_str()) {
                    Some(v) => v,
                    None => 0,
                },
                None => 0,
            },
            None => 0,
        }
    }

    /// The songs of the result table.
    pub fn extract_songs(&self, doc: &Document) -> (r: Vec<SongSearchResult>)
        requires
            doc.wf(),
        ensures
            search_songs_view(r@) == search_songs_spec(doc.src()),
    {
        let rows = doc_table_rows(doc, "table#myTables");
        let td = doc.selection("td");
        let a = doc.selection("a");
        let ghost rv = idx_view(rows@);
        let mut out: Vec<SongSearchResult> = Vec::new();
        let mut k: usize = 0;
        assert(rv.take(0) =~= Seq::<int>::empty());
        while k < rows.len()
            invariant
                doc.wf(),
                td.for_doc(doc),
                td.selector() == "td"@,
                a.for_doc(doc),
                a.selector() == "a"@,
                rv == idx_view(rows@),
                rv == doc_table_rows_spec(doc.src(), "table#myTables"@),
                forall|m: int| 0 <= m < rows@.len() ==> #[trigger] rows@[m] < elems(doc.src()).len(),
                k <= rows@.len(),
                search_songs_view(out@) == result_rows_spec(doc.src(), rv.take(k as int)),
            decreases rows.len() - k,
        {
            assert(rv.take(k + 1).drop_last() =~= rv.take(k as int));
            assert(rv.take(k + 1).last() == rows@[k as int] as int);
            match result_row(doc, &td, &a, rows[k]) {
                Some(x) => {
                    let ghost prev = out@;
                    let ghost xv = x@;
                    out.push(x);
                    assert(search_songs_view(out@) =~= search_songs_view(prev).push(xv));
                },
                None => {},
            }
            k = k + 1;
        }
        assert(rv.take(rows@.len() as int) =~= rv);
        out
    }

    /// All data of a search result page.
    pub fn extract_all(&self, doc: &Document) -> (r: SearchResult)
        requires
            doc.wf(),
        ensures
            r.keyword@ == keyword_spec(doc.src()),
            r.total_count == total_count_spec(doc.src()),
            search_songs_view(r.songs@) == search_songs_spec(doc.src()),
    {
        SearchResult {
            keyword: self.extract_keyword(doc),
            total_count: self.extract_total_count(doc),
            songs: self.extract_songs(doc),
        }
    }
}

} // verus!
