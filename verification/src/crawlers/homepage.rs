//! The home page: latest searches, hot keywords and hot singers.

use vstd::prelude::*;
use crate::crawlers::common::{int_or, text_int_or};
use crate::dom::{
    ATTR_HREF, Document, Selection, attr_or_empty, elems, first_of, opt_index, select_doc,
    select_in, text_of,
};
use crate::text::{contains, owned, seq_contains, trim_seq};

verus! {

/// A keyword of the latest-searches list.
pub struct SearchKeywordItem {
    pub keyword: String,
    pub url: String,
}

impl View for SearchKeywordItem {
    type V = (Seq<char>, Seq<char>);

    open spec fn view(&self) -> (Seq<char>, Seq<char>) {
        (self.keyword@, self.url@)
    }
}

/// A keyword with its rank.
pub struct RankedKeyword {
    pub rank: i32,
    pub keyword: String,
    pub url: String,
}

impl View for RankedKeyword {
    type V = (i32, Seq<char>, Seq<char>);

    open spec fn view(&self) -> (i32, Seq<char>, Seq<char>) {
        (self.rank, self.keyword@, self.url@)
    }
}

/// A singer of the hot-singers list.
pub struct HotSinger {
    pub rank: i32,
    pub name: String,
    pub url: String,
}

impl View for HotSinger {
    type V = (i32, Seq<char>, Seq<char>);

    open spec fn view(&self) -> (i32, Seq<char>, Seq<char>) {
        (self.rank, self.name@, self.url@)
    }
}

/// Everything extracted from the home page.
pub struct HomepageData {
    pub latest_searches: Vec<SearchKeywordItem>,
    pub hot_keywords: Vec<RankedKeyword>,
    pub hot_singers: Vec<HotSinger>,
}

/// A ranked row: rank, text, link.
pub type RankedRow = (i32, Seq<char>, Seq<char>);

/// The view of a list of latest-search keywords.
pub open spec fn searches_view(v: Seq<SearchKeywordItem>) -> Seq<(Seq<char>, Seq<char>)> {
    v.map_values(|x: SearchKeywordItem| x@)
}

/// The view of a list of ranked keywords.
pub open spec fn keywords_view(v: Seq<RankedKeyword>) -> Seq<RankedRow> {
    v.map_values(|x: RankedKeyword| x@)
}

/// The view of a list of hot singers.
pub open spec fn singers_view(v: Seq<HotSinger>) -> Seq<RankedRow> {
    v.map_values(|x: HotSinger| x@)
}

/// The latest searches: every link inside `div.ilingku_singerlist`, with
/// its trimmed text and its `href` (empty when absent).
pub open spec fn latest_searches_spec(src: Seq<char>) -> Seq<(Seq<char>, Seq<char>)> {
    select_doc(src, "div.ilingku_singerlist a"@).map_values(
        |j: int| (trim_seq(text_of(src, j)), attr_or_empty(src, j, ATTR_HREF as int)),
    )
}

/// Some `h6` inside element `body` has `title` in its text.
pub open spec fn has_titled_h6(src: Seq<char>, body: int, title: Seq<char>) -> bool {
    let hs = select_in(src, "h6"@, body);
    exists|k: int| 0 <= k < hs.len() && seq_contains(text_of(src, #[trigger] hs[k]), title)
}

/// The first `div.card-body` of a card.
pub open spec fn card_body_of(src: Seq<char>, card: int) -> Option<int> {
    first_of(select_in(src, "div.card-body"@, card))
}

/// The card's first body has an `h6` with `title`.
pub open spec fn card_matches(src: Seq<char>, card: int, title: Seq<char>) -> bool {
    match card_body_of(src, card) {
        Some(b) => has_titled_h6(src, b, title),
        None => false,
    }
}

/// The first of `cards` that matches `title`.
pub open spec fn find_card(src: Seq<char>, cards: Seq<int>, title: Seq<char>) -> Option<int>
    decreases cards.len(),
{
    if cards.len() == 0 {
        None
    } else if card_matches(src, cards[0], title) {
        Some(cards[0])
    } else {
        find_card(src, cards.drop_first(), title)
    }
}

/// The body of the first card whose heading carries `title`.
pub open spec fn titled_card_body(src: Seq<char>, title: Seq<char>) -> Option<int> {
    match find_card(src, select_doc(src, "div.card"@), title) {
        Some(c) => card_body_of(src, c),
        None => None,
    }
}

/// The rows of the first `tbody` of the first `table.table` in `body`.
pub open spec fn table_rows_spec(src: Seq<char>, body: int) -> Seq<int> {
    match first_of(select_in(src, "table.table"@, body)) {
        Some(t) => match first_of(select_in(src, "tbody"@, t)) {
            Some(tb) => select_in(src, "tr"@, tb),
            None => Seq::empty(),
        },
        None => Seq::empty(),
    }
}

/// A row with a rank badge and a link gives (rank, link text, link address).
pub open spec fn ranked_row_spec(src: Seq<char>, row: int) -> Option<RankedRow> {
    match (first_of(select_in(src, "span.badge"@, row)), first_of(select_in(src, "a"@, row))) {
        (Some(b), Some(l)) => Some(
            (
                int_or(text_of(src, b), 0),
                trim_seq(text_of(src, l)),
                attr_or_empty(src, l, ATTR_HREF as int),
            ),
        ),
        _ => None,
    }
}

/// The entries of the given rows, skipping rows without badge or link.
pub open spec fn ranked_rows_spec(src: Seq<char>, rows: Seq<int>) -> Seq<RankedRow>
    decreases rows.len(),
{
    if rows.len() == 0 {
        Seq::empty()
    } else {
        let r = ranked_rows_spec(src, rows.drop_last());
        match ranked_row_spec(src, rows.last()) {
            Some(x) => r.push(x),
            None => r,
        }
    }
}

/// The ranked list of the first card titled `title`.
pub open spec fn ranked_table_spec(src: Seq<char>, title: Seq<char>) -> Seq<RankedRow> {
    match titled_card_body(src, title) {
        Some(b) => ranked_rows_spec(src, table_rows_spec(src, b)),
        None => Seq::empty(),
    }
}

/// The hot keywords: the ranked list of the card titled 大家都在搜.
pub open spec fn hot_keywords_spec(src: Seq<char>) -> Seq<RankedRow> {
    ranked_table_spec(src, "大家都在搜"@)
}

/// The hot singers: the ranked list of the card titled 热门歌手榜.
pub open spec fn hot_singers_spec(src: Seq<char>) -> Seq<RankedRow> {
    ranked_table_spec(src, "热门歌手榜"@)
}

/// The view of a list of index selections.
pub open spec fn idx_view(v: Seq<usize>) -> Seq<int> {
    v.map_values(|j: usize| j as int)
}

fn body_has_title(doc: &Document, h6: &Selection, body: usize, title: &str) -> (r: bool)
    requires
        doc.wf(),
        h6.for_doc(doc),
        h6.selector() == "h6"@,
        body < elems(doc.src()).len(),
    ensures
        r == has_titled_h6(doc.src(), body as int, title@),
{
    let hs = doc.select_in(h6, body);
    let ghost hv = select_in(doc.src(), "h6"@, body as int);
    let mut k: usize = 0;
    while k < hs.len()
        invariant
            doc.wf(),
            hv == select_in(doc.src(), "h6"@, body as int),
            idx_view(hs@) == hv,
            forall|m: int| 0 <= m < hs@.len() ==> #[trigger] hs@[m] < elems(doc.src()).len(),
            k <= hs@.len(),
            forall|m: int| 0 <= m < k ==> !seq_contains(text_of(doc.src(), #[trigger] hv[m]), title@),
        decreases hs.len() - k,
    {
        let h = hs[k];
        assert(hv[k as int] == h as int);
        if contains(doc.text(h), title) {
            assert(seq_contains(text_of(doc.src(), hv[k as int]), title@));
            assert(0 <= k < hv.len());
            return true;
        }
        k = k + 1;
    }
    false
}

fn find_titled_body(doc: &Document, title: &str) -> (r: Option<usize>)
    requires
        doc.wf(),
    ensures
        opt_index(r) == titled_card_body(doc.src(), title@),
        r matches Some(i) ==> i < elems(doc.src()).len(),
{
    let card_sel = doc.selection("div.card");
    let body_sel = doc.selection("div.card-body");
    let h6_sel = doc.selection("h6");
    let cards = doc.select_all(&card_sel);
    let ghost cv = select_doc(doc.src(), "div.card"@);
    let mut k: usize = 0;
    assert(cv.subrange(0, cv.len() as int) =~= cv);
    while k < cards.len()
        invariant
            doc.wf(),
            card_sel.selector() == "div.card"@,
            body_sel.for_doc(doc),
            body_sel.selector() == "div.card-body"@,
            h6_sel.for_doc(doc),
            h6_sel.selector() == "h6"@,
            cv == select_doc(doc.src(), "div.card"@),
            idx_view(cards@) == cv,
            forall|m: int| 0 <= m < cards@.len() ==> #[trigger] cards@[m] < elems(doc.src()).len(),
            k <= cards@.len(),
            find_card(doc.src(), cv, title@) == find_card(
                doc.src(),
                cv.subrange(k as int, cv.len() as int),
                title@,
            ),
        decreases cards.len() - k,
    {
        let c = cards[k];
        let ghost rest = cv.subrange(k as int, cv.len() as int);
        assert(rest[0] == c as int);
        assert(rest.drop_first() =~= cv.subrange(k + 1, cv.len() as int));
        match doc.first_in(&body_sel, c) {
            Some(b) => {
                if body_has_title(doc, &h6_sel, b, title) {
                    assert(card_matches(doc.src(), c as int, title@));
                    assert(find_card(doc.src(), rest, title@) == Some(c as int));
                    return Some(b);
                }
            },
            None => {},
        }
        k = k + 1;
    }
    assert(cv.subrange(k as int, cv.len() as int) =~= Seq::<int>::empty());
    None
}

fn table_rows(doc: &Document, body: usize) -> (r: Vec<usize>)
    requires
        doc.wf(),
        body < elems(doc.src()).len(),
    ensures
        idx_view(r@) == table_rows_spec(doc.src(), body as int),
        forall|m: int| 0 <= m < r@.len() ==> #[trigger] r@[m] < elems(doc.src()).len(),
{
    let table_sel = doc.selection("table.table");
    match doc.first_in(&table_sel, body) {
        Some(t) => {
            let tbody_sel = doc.selection("tbody");
            match doc.first_in(&tbody_sel, t) {
                Some(tb) => {
                    let tr_sel = doc.selection("tr");
                    doc.select_in(&tr_sel, tb)
                },
                None => Vec::new(),
            }
        },
        None => Vec::new(),
    }
}

/// The view of a list of ranked rows.
pub open spec fn rows_view(v: Seq<(i32, String, String)>) -> Seq<RankedRow> {
    v.map_values(|x: (i32, String, String)| (x.0, x.1@, x.2@))
}

fn ranked_rows(doc: &Document, rows: &Vec<usize>) -> (r: Vec<(i32, String, String)>)
    requires
        doc.wf(),
        forall|m: int| 0 <= m < rows@.len() ==> #[trigger] rows@[m] < elems(doc.src()).len(),
    ensures
        rows_view(r@) == ranked_rows_spec(doc.src(), idx_view(rows@)),
{
    let badge_sel = doc.selection("span.badge");
    let link_sel = doc.selection("a");
    let ghost rv = idx_view(rows@);
    let mut out: Vec<(i32, String, String)> = Vec::new();
    let mut k: usize = 0;
    assert(rv.take(0) =~= Seq::<int>::empty());
    while k < rows.len()
        invariant
            doc.wf(),
            badge_sel.for_doc(doc),
            badge_sel.selector() == "span.badge"@,
            link_sel.for_doc(doc),
            link_sel.selector() == "a"@,
            rv == idx_view(rows@),
            forall|m: int| 0 <= m < rows@.len() ==> #[trigger] rows@[m] < elems(doc.src()).len(),
            k <= rows@.len(),
            rows_view(out@) == ranked_rows_spec(doc.src(), rv.take(k as int)),
        decreases rows.len() - k,
    {
        let row = rows[k];
        assert(rv.take(k + 1).drop_last() =~= rv.take(k as int));
        assert(rv.take(k + 1).last() == row as int);
        let b = doc.first_in(&badge_sel, row);
        let l = doc.first_in(&link_sel, row);
        match (b, l) {
            (Some(bi), Some(li)) => {
                let rank = text_int_or(doc, bi, 0);
                let name = doc.trimmed_text(li);
                let url = doc.attr_or_empty(li, ATTR_HREF);
                out.push((rank, name, url));
                assert(rows_view(out@) =~= ranked_rows_spec(doc.src(), rv.take(k as int)).push(
                    (rank, name@, url@),
                ));
            },
            _ => {},
        }
        k = k + 1;
    }
    assert(rv.take(rows@.len() as int) =~= rv);
    out
}

/// The ranked list of the first card whose heading carries `title`.
fn ranked_table(doc: &Document, title: &str) -> (r: Vec<(i32, String, String)>)
    requires
        doc.wf(),
    ensures
        rows_view(r@) == ranked_table_spec(doc.src(), title@),
{
    match find_titled_body(doc, title) {
        Some(b) => {
            let rows = table_rows(doc, b);
            ranked_rows(doc, &rows)
        },
        None => Vec::new(),
    }
}

/// The default `User-Agent` of the home-page crawler.
pub open spec fn homepage_default_agent() -> Seq<char> {
    "Mozilla/5.0 (Windows NT 10.0; Win64; x64) AppleWebKit/537.36"@
}

/// Crawler of the home page.
pub struct HomepageCrawler {
    cookie: Option<String>,
    user_agent: String,
}

impl HomepageCrawler {
    /// The cookie sent with requests.
    pub closed spec fn cookie_view(&self) -> Option<Seq<char>> {
        crate::pattern::opt_str_view(self.cookie)
    }

    /// The `User-Agent` sent with requests.
    pub closed spec fn agent_view(&self) -> Seq<char> {
        self.user_agent@
    }

    /// A crawler with the given cookie and `User-Agent` (a default one when
    /// none is given).
    pub fn new(cookie: Option<String>, user_agent: Option<String>) -> (c: Self)
        ensures
            c.cookie_view() == crate::pattern::opt_str_view(cookie),
            c.agent_view() == match user_agent {
                Some(ua) => ua@,
                None => homepage_default_agent(),
            },
    {
        let ua = match user_agent {
            Some(ua) => ua,
            None => owned("Mozilla/5.0 (Windows NT 10.0; Win64; x64) AppleWebKit/537.36"),
        };
        HomepageCrawler { cookie, user_agent: ua }
    }

    /// The cookie to send, if any.
    pub fn get_cookies(&self) -> (c: Option<String>)
        ensures
            crate::pattern::opt_str_view(c) == self.cookie_view(),
    {
        match &self.cookie {
            Some(c) => Some(c.clone()),
            None => None,
        }
    }

    /// The `User-Agent` to send.
    pub fn user_agent(&self) -> (u: String)
        ensures
            u@ == self.agent_view(),
    {
        self.user_agent.clone()
    }

    /// The latest searches of the home page.
    pub fn extract_latest_searches(&self, doc: &Document) -> (r: Vec<SearchKeywordItem>)
        requires
            doc.wf(),
        ensures
            searches_view(r@) == latest_searches_spec(doc.src()),
    {
        let sel = doc.selection("div.ilingku_singerlist a");
        let idx = doc.select_all(&sel);
        let ghost spec = latest_searches_spec(doc.src());
        let ghost iv = select_doc(doc.src(), "div.ilingku_singerlist a"@);
        let mut results: Vec<SearchKeywordItem> = Vec::new();
        let mut k: usize = 0;
        while k < idx.len()
            invariant
                doc.wf(),
                spec == latest_searches_spec(doc.src()),
                iv == select_doc(doc.src(), "div.ilingku_singerlist a"@),
                idx_view(idx@) == iv,
                forall|m: int| 0 <= m < idx@.len() ==> #[trigger] idx@[m] < elems(doc.src()).len(),
                k <= idx@.len(),
                searches_view(results@) == spec.take(k as int),
            decreases idx.len() - k,
        {
            let j = idx[k];
            assert(iv[k as int] == j as int);
            let keyword = doc.trimmed_text(j);
            let url = doc.attr_or_empty(j, ATTR_HREF);
            let item = SearchKeywordItem { keyword, url };
            assert(spec[k as int] == item@);
            let ghost prev = results@;
            results.push(item);
            assert(results@ == prev.push(item));
            assert(searches_view(results@) =~= searches_view(prev).push(item@));
            assert(spec.take(k + 1) =~= spec.take(k as int).push(spec[k as int]));
            k = k + 1;
        }
        assert(spec.take(idx@.len() as int) =~= spec);
        results
    }

    /// The hot keywords (card 大家都在搜) of the home page.
    pub fn extract_hot_keywords(&self, doc: &Document) -> (r: Vec<RankedKeyword>)
        requires
            doc.wf(),
        ensures
            keywords_view(r@) == hot_keywords_spec(doc.src()),
    {
        let rows = ranked_table(doc, "大家都在搜");
        let mut out: Vec<RankedKeyword> = Vec::new();
        let mut k: usize = 0;
        while k < rows.len()
            invariant
                k <= rows@.len(),
                keywords_view(out@) == rows_view(rows@).take(k as int),
            decreases rows.len() - k,
        {
            let t = &rows[k];
            let rank = t.0;
            let keyword = t.1.clone();
            let url = t.2.clone();
            let item = RankedKeyword { rank, keyword, url };
            assert(rows_view(rows@)[k as int] == item@);
            let ghost prev = out@;
            out.push(item);
            assert(out@ == prev.push(item));
            assert(keywords_view(out@) =~= keywords_view(prev).push(item@));
            assert(rows_view(rows@).take(k + 1) =~= rows_view(rows@).take(k as int).push(rows_view(rows@)[k as int]));
            k = k + 1;
        }
        assert(rows_view(rows@).take(rows@.len() as int) =~= rows_view(rows@));
        out
    }

    /// The hot singers (card 热门歌手榜) of the home page.
    pub fn extract_hot_singers(&self, doc: &Document) -> (r: Vec<HotSinger>)
        requires
            doc.wf(),
        ensures
            singers_view(r@) == hot_singers_spec(doc.src()),
    {
        let rows = ranked_table(doc, "热门歌手榜");
        let mut out: Vec<HotSinger> = Vec::new();
        let mut k: usize = 0;
        while k < rows.len()
            invariant
                k <= rows@.len(),
                singers_view(out@) == rows_view(rows@).take(k as int),
            decreases rows.len() - k,
        {
            let t = &rows[k];
            let rank = t.0;
            let name = t.1.clone();
            let url = t.2.clone();
            let item = HotSinger { rank, name, url };
            assert(rows_view(rows@)[k as int] == item@);
            let ghost prev = out@;
            out.push(item);
            assert(out@ == prev.push(item));
            assert(singers_view(out@) =~= singers_view(prev).push(item@));
            assert(rows_view(rows@).take(k + 1) =~= rows_view(rows@).take(k as int).push(rows_view(rows@)[k as int]));
            k = k + 1;
        }
        assert(rows_view(rows@).take(rows@.len() as int) =~= rows_view(rows@));
        out
    }

    /// All data of the home page.
    pub fn extract_all(&self, doc: &Document) -> (d: HomepageData)
        requires
            doc.wf(),
        ensures
            searches_view(d.latest_searches@) == latest_searches_spec(doc.src()),
            keywords_view(d.hot_keywords@) == hot_keywords_spec(doc.src()),
            singers_view(d.hot_singers@) == hot_singers_spec(doc.src()),
    {
        HomepageData {
            latest_searches: self.extract_latest_searches(doc),
            hot_keywords: self.extract_hot_keywords(doc),
            hot_singers: self.extract_hot_singers(doc),
        }
    }
}

} // verus!
