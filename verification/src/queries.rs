//! The read queries of the store: their SQL and their parameters.
//!
//! Which statement a lookup runs, and with which parameters, is decided
//! here from the filters given; the contracts state both exactly.

use vstd::prelude::*;
use crate::sqlite::{SqlParam, SqlParamView, params_view};
use crate::text::{occurs_at, seq_contains};

verus! {

/// The song with a site id.
pub const SONG_BY_SONG_ID: &'static str = "SELECT id, song_id, title, artist, cover_url, created_at FROM songs WHERE song_id = ?1";

/// The singer with a name.
pub const SINGER_BY_NAME: &'static str = "SELECT id, name, avatar_url, songs_url, created_at FROM singers WHERE name = ?1";

/// The latest singers.
pub const ALL_SINGERS: &'static str = "SELECT id, name, avatar_url, songs_url, created_at FROM singers ORDER BY created_at DESC LIMIT ?1";

/// The latest songs.
pub const ALL_SONGS: &'static str = "SELECT id, song_id, title, artist, cover_url, created_at FROM songs ORDER BY created_at DESC LIMIT ?1";

/// The latest downloads, with their songs.
pub const ALL_DOWNLOADS: &'static str = "SELECT d.id, d.song_id, d.file_path, d.file_size, d.downloaded_at, s.song_id as real_song_id, s.title, s.artist FROM downloads d LEFT JOIN songs s ON d.song_id = s.song_id ORDER BY d.downloaded_at DESC LIMIT ?1";

/// The latest entries of one ranking.
pub const RANKINGS_OF_TYPE: &'static str = "SELECT r.id, r.ranking_type, r.rank, r.crawled_at, s.song_id, s.title, s.artist, sg.name as singer_name FROM rankings r LEFT JOIN songs s ON r.song_id = s.id LEFT JOIN singers sg ON r.singer_id = sg.id WHERE r.ranking_type = ?1 ORDER BY r.crawled_at DESC, r.rank ASC LIMIT ?2";

/// The latest entries of all rankings.
pub const RANKINGS_ALL: &'static str = "SELECT r.id, r.ranking_type, r.rank, r.crawled_at, s.song_id, s.title, s.artist, sg.name as singer_name FROM rankings r LEFT JOIN songs s ON r.song_id = s.id LEFT JOIN singers sg ON r.singer_id = sg.id ORDER BY r.crawled_at DESC, r.rank ASC LIMIT ?1";

/// The number of rows of `singers`.
pub const COUNT_SINGERS: &'static str = "SELECT COUNT(*) FROM singers";

/// The number of rows of `songs`.
pub const COUNT_SONGS: &'static str = "SELECT COUNT(*) FROM songs";

/// The number of rows of `rankings`.
pub const COUNT_RANKINGS: &'static str = "SELECT COUNT(*) FROM rankings";

/// The number of rows of `search_keywords`.
pub const COUNT_SEARCH_KEYWORDS: &'static str = "SELECT COUNT(*) FROM search_keywords";

/// The number of rows of `downloads`.
pub const COUNT_DOWNLOADS: &'static str = "SELECT COUNT(*) FROM downloads";

/// The number of rows of `page_snapshots`.
pub const COUNT_PAGE_SNAPSHOTS: &'static str = "SELECT COUNT(*) FROM page_snapshots";

/// The number of rows of `page_items`.
pub const COUNT_PAGE_ITEMS: &'static str = "SELECT COUNT(*) FROM page_items";

/// How often a song appeared on crawled pages.
pub const SONG_APPEARANCES: &'static str = "SELECT COUNT(*) FROM page_items WHERE item_type = 'song' AND item_id = (SELECT id FROM songs WHERE song_id = ?1)";

/// How often a song appeared on crawled homepage pages.
pub const SONG_APPEARANCES_ON_HOMEPAGE: &'static str = "SELECT COUNT(*) FROM page_items pi JOIN page_snapshots ps ON pi.page_snapshot_id = ps.id WHERE pi.item_type = 'song' AND pi.item_id = (SELECT id FROM songs WHERE song_id = ?1) AND ps.page_type = 'homepage'";

/// How often a song appeared on crawled ranking pages.
pub const SONG_APPEARANCES_ON_RANKING: &'static str = "SELECT COUNT(*) FROM page_items pi JOIN page_snapshots ps ON pi.page_snapshot_id = ps.id WHERE pi.item_type = 'song' AND pi.item_id = (SELECT id FROM songs WHERE song_id = ?1) AND ps.page_type = 'ranking'";

/// How often a singer appeared on crawled pages.
pub const SINGER_APPEARANCES: &'static str = "SELECT COUNT(*) FROM page_items WHERE item_type = 'singer' AND item_id = (SELECT id FROM singers WHERE name = ?1)";

/// How often a singer appeared on crawled homepage pages.
pub const SINGER_APPEARANCES_ON_HOMEPAGE: &'static str = "SELECT COUNT(*) FROM page_items pi JOIN page_snapshots ps ON pi.page_snapshot_id = ps.id WHERE pi.item_type = 'singer' AND pi.item_id = (SELECT id FROM singers WHERE name = ?1) AND ps.page_type = 'homepage'";

/// How often a singer appeared on crawled ranking pages.
pub const SINGER_APPEARANCES_ON_RANKING: &'static str = "SELECT COUNT(*) FROM page_items pi JOIN page_snapshots ps ON pi.page_snapshot_id = ps.id WHERE pi.item_type = 'singer' AND pi.item_id = (SELECT id FROM singers WHERE name = ?1) AND ps.page_type = 'ranking'";

/// The songs seen most often on pages crawled between two times.
pub const TOP_SONGS_BETWEEN: &'static str = "SELECT s.song_id, s.title, s.artist, COUNT(*) as appearance_count FROM page_items pi JOIN songs s ON pi.item_type = 'song' AND pi.item_id = s.id JOIN page_snapshots ps ON pi.page_snapshot_id = ps.id WHERE ps.crawled_at >= ?1 AND ps.crawled_at <= ?2 GROUP BY s.song_id ORDER BY appearance_count DESC LIMIT ?3";

/// The songs seen most often on pages crawled since a time.
pub const TOP_SONGS_SINCE: &'static str = "SELECT s.song_id, s.title, s.artist, COUNT(*) as appearance_count FROM page_items pi JOIN songs s ON pi.item_type = 'song' AND pi.item_id = s.id JOIN page_snapshots ps ON pi.page_snapshot_id = ps.id WHERE ps.crawled_at >= ?1 GROUP BY s.song_id ORDER BY appearance_count DESC LIMIT ?2";

/// The songs seen most often on pages crawled until a time.
pub const TOP_SONGS_UNTIL: &'static str = "SELECT s.song_id, s.title, s.artist, COUNT(*) as appearance_count FROM page_items pi JOIN songs s ON pi.item_type = 'song' AND pi.item_id = s.id JOIN page_snapshots ps ON pi.page_snapshot_id = ps.id WHERE ps.crawled_at <= ?1 GROUP BY s.song_id ORDER BY appearance_count DESC LIMIT ?2";

/// The songs seen most often on crawled pages.
pub const TOP_SONGS_ALL: &'static str = "SELECT s.song_id, s.title, s.artist, COUNT(*) as appearance_count FROM page_items pi JOIN songs s ON pi.item_type = 'song' AND pi.item_id = s.id JOIN page_snapshots ps ON pi.page_snapshot_id = ps.id GROUP BY s.song_id ORDER BY appearance_count DESC LIMIT ?1";

/// The singers seen most often on pages crawled between two times.
pub const TOP_SINGERS_BETWEEN: &'static str = "SELECT sg.name, COUNT(*) as appearance_count FROM page_items pi JOIN singers sg ON pi.item_type = 'singer' AND pi.item_id = sg.id JOIN page_snapshots ps ON pi.page_snapshot_id = ps.id WHERE ps.crawled_at >= ?1 AND ps.crawled_at <= ?2 GROUP BY sg.name ORDER BY appearance_count DESC LIMIT ?3";

/// The singers seen most often on pages crawled since a time.
pub const TOP_SINGERS_SINCE: &'static str = "SELECT sg.name, COUNT(*) as appearance_count FROM page_items pi JOIN singers sg ON pi.item_type = 'singer' AND pi.item_id = sg.id JOIN page_snapshots ps ON pi.page_snapshot_id = ps.id WHERE ps.crawled_at >= ?1 GROUP BY sg.name ORDER BY appearance_count DESC LIMIT ?2";

/// The singers seen most often on pages crawled until a time.
pub const TOP_SINGERS_UNTIL: &'static str = "SELECT sg.name, COUNT(*) as appearance_count FROM page_items pi JOIN singers sg ON pi.item_type = 'singer' AND pi.item_id = sg.id JOIN page_snapshots ps ON pi.page_snapshot_id = ps.id WHERE ps.crawled_at <= ?1 GROUP BY sg.name ORDER BY appearance_count DESC LIMIT ?2";

/// The singers seen most often on crawled pages.
pub const TOP_SINGERS_ALL: &'static str = "SELECT sg.name, COUNT(*) as appearance_count FROM page_items pi JOIN singers sg ON pi.item_type = 'singer' AND pi.item_id = sg.id JOIN page_snapshots ps ON pi.page_snapshot_id = ps.id GROUP BY sg.name ORDER BY appearance_count DESC LIMIT ?1";


/// The latest snapshots of one page type, of one ranking, since a time, until a time.
pub const SNAPSHOTS_TYPE_RANKING_SINCE_UNTIL: &'static str = "SELECT * FROM page_snapshots WHERE page_type = ?1 AND ranking_type = ?2 AND crawled_at >= ?3 AND crawled_at <= ?4 ORDER BY crawled_at DESC LIMIT ?5";

/// The latest snapshots of one page type, of one ranking, since a time.
pub const SNAPSHOTS_TYPE_RANKING_SINCE: &'static str = "SELECT * FROM page_snapshots WHERE page_type = ?1 AND ranking_type = ?2 AND crawled_at >= ?3 ORDER BY crawled_at DESC LIMIT ?4";

/// The latest snapshots of one page type, of one ranking, until a time.
pub const SNAPSHOTS_TYPE_RANKING_UNTIL: &'static str = "SELECT * FROM page_snapshots WHERE page_type = ?1 AND ranking_type = ?2 AND crawled_at <= ?3 ORDER BY crawled_at DESC LIMIT ?4";

/// The latest snapshots of one page type, of one ranking.
pub const SNAPSHOTS_TYPE_RANKING: &'static str = "SELECT * FROM page_snapshots WHERE page_type = ?1 AND ranking_type = ?2 ORDER BY crawled_at DESC LIMIT ?3";

/// The latest snapshots of one page type, since a time, until a time.
pub const SNAPSHOTS_TYPE_SINCE_UNTIL: &'static str = "SELECT * FROM page_snapshots WHERE page_type = ?1 AND crawled_at >= ?2 AND crawled_at <= ?3 ORDER BY crawled_at DESC LIMIT ?4";

/// The latest snapshots of one page type, since a time.
pub const SNAPSHOTS_TYPE_SINCE: &'static str = "SELECT * FROM page_snapshots WHERE page_type = ?1 AND crawled_at >= ?2 ORDER BY crawled_at DESC LIMIT ?3";

/// The latest snapshots of one page type, until a time.
pub const SNAPSHOTS_TYPE_UNTIL: &'static str = "SELECT * FROM page_snapshots WHERE page_type = ?1 AND crawled_at <= ?2 ORDER BY crawled_at DESC LIMIT ?3";

/// The latest snapshots of one page type.
pub const SNAPSHOTS_TYPE: &'static str = "SELECT * FROM page_snapshots WHERE page_type = ?1 ORDER BY crawled_at DESC LIMIT ?2";

/// The latest snapshots of one ranking, since a time, until a time.
pub const SNAPSHOTS_RANKING_SINCE_UNTIL: &'static str = "SELECT * FROM page_snapshots WHERE ranking_type = ?1 AND crawled_at >= ?2 AND crawled_at <= ?3 ORDER BY crawled_at DESC LIMIT ?4";

/// The latest snapshots of one ranking, since a time.
pub const SNAPSHOTS_RANKING_SINCE: &'static str = "SELECT * FROM page_snapshots WHERE ranking_type = ?1 AND crawled_at >= ?2 ORDER BY crawled_at DESC LIMIT ?3";

/// The latest snapshots of one ranking, until a time.
pub const SNAPSHOTS_RANKING_UNTIL: &'static str = "SELECT * FROM page_snapshots WHERE ranking_type = ?1 AND crawled_at <= ?2 ORDER BY crawled_at DESC LIMIT ?3";

/// The latest snapshots of one ranking.
pub const SNAPSHOTS_RANKING: &'static str = "SELECT * FROM page_snapshots WHERE ranking_type = ?1 ORDER BY crawled_at DESC LIMIT ?2";

/// The latest snapshots since a time, until a time.
pub const SNAPSHOTS_SINCE_UNTIL: &'static str = "SELECT * FROM page_snapshots WHERE crawled_at >= ?1 AND crawled_at <= ?2 ORDER BY crawled_at DESC LIMIT ?3";

/// The latest snapshots since a time.
pub const SNAPSHOTS_SINCE: &'static str = "SELECT * FROM page_snapshots WHERE crawled_at >= ?1 ORDER BY crawled_at DESC LIMIT ?2";

/// The latest snapshots until a time.
pub const SNAPSHOTS_UNTIL: &'static str = "SELECT * FROM page_snapshots WHERE crawled_at <= ?1 ORDER BY crawled_at DESC LIMIT ?2";

/// The latest snapshots.
pub const SNAPSHOTS_ALL: &'static str = "SELECT * FROM page_snapshots ORDER BY crawled_at DESC LIMIT ?1";

/// A statement with its parameters.
pub struct Query {
    pub sql: &'static str,
    pub params: Vec<SqlParam>,
}

/// The text of an optional string slice.
pub open spec fn opt_ref_view(o: Option<&str>) -> Option<Seq<char>> {
    match o {
        Some(s) => Some(s@),
        None => None,
    }
}

/// The parameter given for an optional filter: one text value, or none.
pub open spec fn filter_params(o: Option<Seq<char>>) -> Seq<SqlParamView> {
    match o {
        Some(s) => seq![SqlParamView::Text(s)],
        None => seq![],
    }
}

fn push_filter(params: &mut Vec<SqlParam>, o: Option<&str>)
    ensures
        params_view(final(params)@) == params_view(old(params)@) + filter_params(opt_ref_view(o)),
{
    match o {
        Some(s) => {
            params.push(SqlParam::Text(s.to_string()));
            assert(params_view(params@) =~= params_view(old(params)@) + filter_params(opt_ref_view(o)));
        },
        None => {
            assert(params_view(params@) =~= params_view(old(params)@) + filter_params(opt_ref_view(o)));
        },
    }
}

fn push_int(params: &mut Vec<SqlParam>, i: i64)
    ensures
        params_view(final(params)@) == params_view(old(params)@).push(SqlParamView::Integer(i)),
{
    params.push(SqlParam::Integer(i));
    assert(params_view(params@) =~= params_view(old(params)@).push(SqlParamView::Integer(i)));
}

/// A query with one integer parameter.
pub fn int_query(sql: &'static str, value: i64) -> (q: Query)
    ensures
        q.sql == sql,
        params_view(q.params@) == seq![SqlParamView::Integer(value)],
{
    let mut params: Vec<SqlParam> = Vec::new();
    push_int(&mut params, value);
    assert(params_view(Seq::<SqlParam>::empty()) =~= Seq::<SqlParamView>::empty());
    Query { sql, params }
}

/// A query with one text parameter.
pub fn text_query(sql: &'static str, value: &str) -> (q: Query)
    ensures
        q.sql == sql,
        params_view(q.params@) == seq![SqlParamView::Text(value@)],
{
    let mut params: Vec<SqlParam> = Vec::new();
    push_filter(&mut params, Some(value));
    assert(params_view(Seq::<SqlParam>::empty()) =~= Seq::<SqlParamView>::empty());
    Query { sql, params }
}

/// A query without parameters.
pub fn plain_query(sql: &'static str) -> (q: Query)
    ensures
        q.sql == sql,
        params_view(q.params@) == Seq::<SqlParamView>::empty(),
{
    let params: Vec<SqlParam> = Vec::new();
    assert(params_view(params@) =~= Seq::<SqlParamView>::empty());
    Query { sql, params }
}

/// The statement listing rankings: of one type, or of all.
pub open spec fn rankings_sql(has_type: bool) -> Seq<char> {
    if has_type {
        RANKINGS_OF_TYPE@
    } else {
        RANKINGS_ALL@
    }
}

/// The latest ranking entries, of `ranking_type` when one is given.
pub fn rankings_query(ranking_type: Option<&str>, limit: i64) -> (q: Query)
    ensures
        q.sql@ == rankings_sql(ranking_type is Some),
        params_view(q.params@) == filter_params(opt_ref_view(ranking_type)).push(SqlParamView::Integer(limit)),
{
    let mut params: Vec<SqlParam> = Vec::new();
    assert(params_view(params@) =~= Seq::<SqlParamView>::empty());
    push_filter(&mut params, ranking_type);
    push_int(&mut params, limit);
    assert(Seq::<SqlParamView>::empty() + filter_params(opt_ref_view(ranking_type)) =~= filter_params(opt_ref_view(ranking_type)));
    let sql = match ranking_type {
        Some(_) => RANKINGS_OF_TYPE,
        None => RANKINGS_ALL,
    };
    Query { sql, params }
}

/// The statement ranking songs by appearances, by which bounds of the
/// crawl time are given.
pub open spec fn top_songs_sql(has_from: bool, has_to: bool) -> Seq<char> {
    if has_from && has_to {
        TOP_SONGS_BETWEEN@
    } else if has_from {
        TOP_SONGS_SINCE@
    } else if has_to {
        TOP_SONGS_UNTIL@
    } else {
        TOP_SONGS_ALL@
    }
}

/// The statement ranking singers by appearances, by which bounds of the
/// crawl time are given.
pub open spec fn top_singers_sql(has_from: bool, has_to: bool) -> Seq<char> {
    if has_from && has_to {
        TOP_SINGERS_BETWEEN@
    } else if has_from {
        TOP_SINGERS_SINCE@
    } else if has_to {
        TOP_SINGERS_UNTIL@
    } else {
        TOP_SINGERS_ALL@
    }
}

/// The parameters of a query filtered by crawl time and limited: the
/// bounds given, in order, then the limit.
pub open spec fn window_params(from: Option<&str>, to: Option<&str>, limit: i64) -> Seq<SqlParamView> {
    (filter_params(opt_ref_view(from)) + filter_params(opt_ref_view(to))).push(SqlParamView::Integer(limit))
}

fn window_param_list(from: Option<&str>, to: Option<&str>, limit: i64) -> (p: Vec<SqlParam>)
    ensures
        params_view(p@) == window_params(from, to, limit),
{
    let mut params: Vec<SqlParam> = Vec::new();
    assert(params_view(params@) =~= Seq::<SqlParamView>::empty());
    push_filter(&mut params, from);
    push_filter(&mut params, to);
    push_int(&mut params, limit);
    assert(Seq::<SqlParamView>::empty() + filter_params(opt_ref_view(from)) =~= filter_params(opt_ref_view(from)));
    params
}

/// The number of filters given.
pub open spec fn given(o: Option<&str>) -> nat {
    if o is Some {
        1
    } else {
        0
    }
}

/// A filtered and limited query has one parameter per filter given, in
/// order, and the limit last, matching the numbered placeholders of its
/// statement.
pub proof fn lemma_limit_is_last(page_type: Option<&str>, ranking_type: Option<&str>, limit: i64, from: Option<&str>, to: Option<&str>)
    ensures
        window_params(from, to, limit).len() == given(from) + given(to) + 1,
        window_params(from, to, limit).last() == SqlParamView::Integer(limit),
        (filter_params(opt_ref_view(page_type)) + filter_params(opt_ref_view(ranking_type)) + window_params(from, to, limit)).len()
            == given(page_type) + given(ranking_type) + given(from) + given(to) + 1,
        (filter_params(opt_ref_view(page_type)) + filter_params(opt_ref_view(ranking_type)) + window_params(from, to, limit)).last()
            == SqlParamView::Integer(limit),
{
}

/// The songs that appeared most often on pages crawled within the bounds
/// given.
pub fn top_songs_query(limit: i64, date_from: Option<&str>, date_to: Option<&str>) -> (q: Query)
    ensures
        q.sql@ == top_songs_sql(date_from is Some, date_to is Some),
        params_view(q.params@) == window_params(date_from, date_to, limit),
{
    let params = window_param_list(date_from, date_to, limit);
    let sql = match (date_from, date_to) {
        (Some(_), Some(_)) => TOP_SONGS_BETWEEN,
        (Some(_), None) => TOP_SONGS_SINCE,
        (None, Some(_)) => TOP_SONGS_UNTIL,
        (None, None) => TOP_SONGS_ALL,
    };
    Query { sql, params }
}

/// The singers that appeared most often on pages crawled within the
/// bounds given.
pub fn top_singers_query(limit: i64, date_from: Option<&str>, date_to: Option<&str>) -> (q: Query)
    ensures
        q.sql@ == top_singers_sql(date_from is Some, date_to is Some),
        params_view(q.params@) == window_params(date_from, date_to, limit),
{
    let params = window_param_list(date_from, date_to, limit);
    let sql = match (date_from, date_to) {
        (Some(_), Some(_)) => TOP_SINGERS_BETWEEN,
        (Some(_), None) => TOP_SINGERS_SINCE,
        (None, Some(_)) => TOP_SINGERS_UNTIL,
        (None, None) => TOP_SINGERS_ALL,
    };
    Query { sql, params }
}

/// The statement listing page snapshots, by which filters are given.
pub open spec fn snapshots_sql(has_type: bool, has_ranking: bool, has_from: bool, has_to: bool) -> Seq<char> {
    if has_type && has_ranking && has_from && has_to {
        SNAPSHOTS_TYPE_RANKING_SINCE_UNTIL@
    } else if has_type && has_ranking && has_from && !has_to {
        SNAPSHOTS_TYPE_RANKING_SINCE@
    } else if has_type && has_ranking && !has_from && has_to {
        SNAPSHOTS_TYPE_RANKING_UNTIL@
    } else if has_type && has_ranking && !has_from && !has_to {
        SNAPSHOTS_TYPE_RANKING@
    } else if has_type && !has_ranking && has_from && has_to {
        SNAPSHOTS_TYPE_SINCE_UNTIL@
    } else if has_type && !has_ranking && has_from && !has_to {
        SNAPSHOTS_TYPE_SINCE@
    } else if has_type && !has_ranking && !has_from && has_to {
        SNAPSHOTS_TYPE_UNTIL@
    } else if has_type && !has_ranking && !has_from && !has_to {
        SNAPSHOTS_TYPE@
    } else if !has_type && has_ranking && has_from && has_to {
        SNAPSHOTS_RANKING_SINCE_UNTIL@
    } else if !has_type && has_ranking && has_from && !has_to {
        SNAPSHOTS_RANKING_SINCE@
    } else if !has_type && has_ranking && !has_from && has_to {
        SNAPSHOTS_RANKING_UNTIL@
    } else if !has_type && has_ranking && !has_from && !has_to {
        SNAPSHOTS_RANKING@
    } else if !has_type && !has_ranking && has_from && has_to {
        SNAPSHOTS_SINCE_UNTIL@
    } else if !has_type && !has_ranking && has_from && !has_to {
        SNAPSHOTS_SINCE@
    } else if !has_type && !has_ranking && !has_from && has_to {
        SNAPSHOTS_UNTIL@
    } else {
        SNAPSHOTS_ALL@
    }
}

/// The latest page snapshots, of `page_type` and of the ranking
/// `ranking_type`, and within the crawl-time bounds, for each of these that
/// is given.
pub fn snapshots_query(page_type: Option<&str>, ranking_type: Option<&str>, limit: i64, date_from: Option<&str>, date_to: Option<&str>) -> (q: Query)
    ensures
        q.sql@ == snapshots_sql(page_type is Some, ranking_type is Some, date_from is Some, date_to is Some),
        params_view(q.params@) == filter_params(opt_ref_view(page_type)) + filter_params(opt_ref_view(ranking_type))
            + window_params(date_from, date_to, limit),
{
    let mut params: Vec<SqlParam> = Vec::new();
    assert(params_view(params@) =~= Seq::<SqlParamView>::empty());
    push_filter(&mut params, page_type);
    push_filter(&mut params, ranking_type);
    push_filter(&mut params, date_from);
    push_filter(&mut params, date_to);
    push_int(&mut params, limit);
    assert(params_view(params@) =~= filter_params(opt_ref_view(page_type)) + filter_params(opt_ref_view(ranking_type))
        + window_params(date_from, date_to, limit));
    let sql = match (page_type, ranking_type, date_from, date_to) {
        (Some(_), Some(_), Some(_), Some(_)) => SNAPSHOTS_TYPE_RANKING_SINCE_UNTIL,
        (Some(_), Some(_), Some(_), None) => SNAPSHOTS_TYPE_RANKING_SINCE,
        (Some(_), Some(_), None, Some(_)) => SNAPSHOTS_TYPE_RANKING_UNTIL,
        (Some(_), Some(_), None, None) => SNAPSHOTS_TYPE_RANKING,
        (Some(_), None, Some(_), Some(_)) => SNAPSHOTS_TYPE_SINCE_UNTIL,
        (Some(_), None, Some(_), None) => SNAPSHOTS_TYPE_SINCE,
        (Some(_), None, None, Some(_)) => SNAPSHOTS_TYPE_UNTIL,
        (Some(_), None, None, None) => SNAPSHOTS_TYPE,
        (None, Some(_), Some(_), Some(_)) => SNAPSHOTS_RANKING_SINCE_UNTIL,
        (None, Some(_), Some(_), None) => SNAPSHOTS_RANKING_SINCE,
        (None, Some(_), None, Some(_)) => SNAPSHOTS_RANKING_UNTIL,
        (None, Some(_), None, None) => SNAPSHOTS_RANKING,
        (None, None, Some(_), Some(_)) => SNAPSHOTS_SINCE_UNTIL,
        (None, None, Some(_), None) => SNAPSHOTS_SINCE,
        (None, None, None, Some(_)) => SNAPSHOTS_UNTIL,
        (None, None, None, None) => SNAPSHOTS_ALL,
    };
    Query { sql, params }
}


// ---------------------------------------------------------------------
// What the statements keep
// ---------------------------------------------------------------------

/// The placeholder `?k` of the `k`-th parameter of a statement.
pub open spec fn placeholder(k: nat) -> Seq<char> {
    if k == 1 {
        "?1"@
    } else if k == 2 {
        "?2"@
    } else if k == 3 {
        "?3"@
    } else if k == 4 {
        "?4"@
    } else {
        "?5"@
    }
}

/// The clause `clause` stands in the statement `sql` applied to its `k`-th
/// parameter (as in `crawled_at >= ?2`).
pub open spec fn binds(sql: Seq<char>, clause: Seq<char>, k: nat) -> bool {
    seq_contains(sql, clause + placeholder(k))
}

/// 1 for a filter given, 0 for one left out.
pub open spec fn count(b: bool) -> nat {
    if b {
        1
    } else {
        0
    }
}

proof fn lemma_binds_at(sql: Seq<char>, clause: Seq<char>, k: nat, i: int)
    requires
        0 <= i,
        i + clause.len() + placeholder(k).len() <= sql.len(),
        sql.subrange(i, i + clause.len() + placeholder(k).len()) =~= clause + placeholder(k),
    ensures
        binds(sql, clause, k),
{
    assert(occurs_at(sql, clause + placeholder(k), i));
}

proof fn lemma_contains_at(sql: Seq<char>, part: Seq<char>, i: int)
    requires
        0 <= i,
        i + part.len() <= sql.len(),
        sql.subrange(i, i + part.len()) =~= part,
    ensures
        seq_contains(sql, part),
{
    assert(occurs_at(sql, part, i));
}

/// The ranking listing reads the `rankings` table; with a type given it
/// keeps the entries whose type is its first parameter; the limit is its
/// last parameter.
pub proof fn lemma_rankings_filter(has_type: bool)
    ensures
        seq_contains(rankings_sql(has_type), "FROM rankings r"@),
        has_type ==> binds(rankings_sql(has_type), "r.ranking_type = "@, 1),
        binds(rankings_sql(has_type), "LIMIT "@, count(has_type) + 1),
{
    if has_type {
        reveal_strlit("SELECT r.id, r.ranking_type, r.rank, r.crawled_at, s.song_id, s.title, s.artist, sg.name as singer_name FROM rankings r LEFT JOIN songs s ON r.song_id = s.id LEFT JOIN singers sg ON r.singer_id = sg.id WHERE r.ranking_type = ?1 ORDER BY r.crawled_at DESC, r.rank ASC LIMIT ?2");
        reveal_strlit("?1");
        reveal_strlit("?2");
        reveal_strlit("FROM rankings r");
        reveal_strlit("LIMIT ");
        reveal_strlit("r.ranking_type = ");
        lemma_binds_at(RANKINGS_OF_TYPE@, "r.ranking_type = "@, 1, 208);
        lemma_binds_at(RANKINGS_OF_TYPE@, "LIMIT "@, 2, 267);
        lemma_contains_at(RANKINGS_OF_TYPE@, "FROM rankings r"@, 104);
    } else if !has_type {
        reveal_strlit("SELECT r.id, r.ranking_type, r.rank, r.crawled_at, s.song_id, s.title, s.artist, sg.name as singer_name FROM rankings r LEFT JOIN songs s ON r.song_id = s.id LEFT JOIN singers sg ON r.singer_id = sg.id ORDER BY r.crawled_at DESC, r.rank ASC LIMIT ?1");
        reveal_strlit("?1");
        reveal_strlit("FROM rankings r");
        reveal_strlit("LIMIT ");
        lemma_binds_at(RANKINGS_ALL@, "LIMIT "@, 1, 241);
        lemma_contains_at(RANKINGS_ALL@, "FROM rankings r"@, 104);
    }
}

/// The ranking of songs by appearances counts the page items of songs; with
/// a lower bound of the crawl time given it keeps the pages crawled at or
/// after its first parameter, with an upper bound those crawled at or
/// before the parameter after it; the limit is its last parameter.
pub proof fn lemma_top_songs_window(has_from: bool, has_to: bool)
    ensures
        seq_contains(top_songs_sql(has_from, has_to), "JOIN songs s ON pi.item_type = 'song'"@),
        has_from ==> binds(top_songs_sql(has_from, has_to), "ps.crawled_at >= "@, 1),
        has_to ==> binds(top_songs_sql(has_from, has_to), "ps.crawled_at <= "@, count(has_from) + 1),
        binds(top_songs_sql(has_from, has_to), "LIMIT "@, count(has_from) + count(has_to) + 1),
{
    if has_from && has_to {
        reveal_strlit("SELECT s.song_id, s.title, s.artist, COUNT(*) as appearance_count FROM page_items pi JOIN songs s ON pi.item_type = 'song' AND pi.item_id = s.id JOIN page_snapshots ps ON pi.page_snapshot_id = ps.id WHERE ps.crawled_at >= ?1 AND ps.crawled_at <= ?2 GROUP BY s.song_id ORDER BY appearance_count DESC LIMIT ?3");
        reveal_strlit("?1");
        reveal_strlit("?2");
        reveal_strlit("?3");
        reveal_strlit("JOIN songs s ON pi.item_type = 'song'");
        reveal_strlit("LIMIT ");
        reveal_strlit("ps.crawled_at <= ");
        reveal_strlit("ps.crawled_at >= ");
        lemma_binds_at(TOP_SONGS_BETWEEN@, "ps.crawled_at >= "@, 1, 205);
        lemma_binds_at(TOP_SONGS_BETWEEN@, "ps.crawled_at <= "@, 2, 229);
        lemma_binds_at(TOP_SONGS_BETWEEN@, "LIMIT "@, 3, 299);
        lemma_contains_at(TOP_SONGS_BETWEEN@, "JOIN songs s ON pi.item_type = 'song'"@, 85);
    } else if has_from && !has_to {
        reveal_strlit("SELECT s.song_id, s.title, s.artist, COUNT(*) as appearance_count FROM page_items pi JOIN songs s ON pi.item_type = 'song' AND pi.item_id = s.id JOIN page_snapshots ps ON pi.page_snapshot_id = ps.id WHERE ps.crawled_at >= ?1 GROUP BY s.song_id ORDER BY appearance_count DESC LIMIT ?2");
        reveal_strlit("?1");
        reveal_strlit("?2");
        reveal_strlit("JOIN songs s ON pi.item_type = 'song'");
        reveal_strlit("LIMIT ");
        reveal_strlit("ps.crawled_at >= ");
        lemma_binds_at(TOP_SONGS_SINCE@, "ps.crawled_at >= "@, 1, 205);
        lemma_binds_at(TOP_SONGS_SINCE@, "LIMIT "@, 2, 275);
        lemma_contains_at(TOP_SONGS_SINCE@, "JOIN songs s ON pi.item_type = 'song'"@, 85);
    } else if !has_from && has_to {
        reveal_strlit("SELECT s.song_id, s.title, s.artist, COUNT(*) as appearance_count FROM page_items pi JOIN songs s ON pi.item_type = 'song' AND pi.item_id = s.id JOIN page_snapshots ps ON pi.page_snapshot_id = ps.id WHERE ps.crawled_at <= ?1 GROUP BY s.song_id ORDER BY appearance_count DESC LIMIT ?2");
        reveal_strlit("?1");
        reveal_strlit("?2");
        reveal_strlit("JOIN songs s ON pi.item_type = 'song'");
        reveal_strlit("LIMIT ");
        reveal_strlit("ps.crawled_at <= ");
        lemma_binds_at(TOP_SONGS_UNTIL@, "ps.crawled_at <= "@, 1, 205);
        lemma_binds_at(TOP_SONGS_UNTIL@, "LIMIT "@, 2, 275);
        lemma_contains_at(TOP_SONGS_UNTIL@, "JOIN songs s ON pi.item_type = 'song'"@, 85);
    } else if !has_from && !has_to {
        reveal_strlit("SELECT s.song_id, s.title, s.artist, COUNT(*) as appearance_count FROM page_items pi JOIN songs s ON pi.item_type = 'song' AND pi.item_id = s.id JOIN page_snapshots ps ON pi.page_snapshot_id = ps.id GROUP BY s.song_id ORDER BY appearance_count DESC LIMIT ?1");
        reveal_strlit("?1");
        reveal_strlit("JOIN songs s ON pi.item_type = 'song'");
        reveal_strlit("LIMIT ");
        lemma_binds_at(TOP_SONGS_ALL@, "LIMIT "@, 1, 249);
        lemma_contains_at(TOP_SONGS_ALL@, "JOIN songs s ON pi.item_type = 'song'"@, 85);
    }
}

/// The ranking of singers by appearances counts the page items of singers; with
/// a lower bound of the crawl time given it keeps the pages crawled at or
/// after its first parameter, with an upper bound those crawled at or
/// before the parameter after it; the limit is its last parameter.
pub proof fn lemma_top_singers_window(has_from: bool, has_to: bool)
    ensures
        seq_contains(top_singers_sql(has_from, has_to), "JOIN singers sg ON pi.item_type = 'singer'"@),
        has_from ==> binds(top_singers_sql(has_from, has_to), "ps.crawled_at >= "@, 1),
        has_to ==> binds(top_singers_sql(has_from, has_to), "ps.crawled_at <= "@, count(has_from) + 1),
        binds(top_singers_sql(has_from, has_to), "LIMIT "@, count(has_from) + count(has_to) + 1),
{
    if has_from && has_to {
        reveal_strlit("SELECT sg.name, COUNT(*) as appearance_count FROM page_items pi JOIN singers sg ON pi.item_type = 'singer' AND pi.item_id = sg.id JOIN page_snapshots ps ON pi.page_snapshot_id = ps.id WHERE ps.crawled_at >= ?1 AND ps.crawled_at <= ?2 GROUP BY sg.name ORDER BY appearance_count DESC LIMIT ?3");
        reveal_strlit("?1");
        reveal_strlit("?2");
        reveal_strlit("?3");
        reveal_strlit("JOIN singers sg ON pi.item_type = 'singer'");
        reveal_strlit("LIMIT ");
        reveal_strlit("ps.crawled_at <= ");
        reveal_strlit("ps.crawled_at >= ");
        lemma_binds_at(TOP_SINGERS_BETWEEN@, "ps.crawled_at >= "@, 1, 190);
        lemma_binds_at(TOP_SINGERS_BETWEEN@, "ps.crawled_at <= "@, 2, 214);
        lemma_binds_at(TOP_SINGERS_BETWEEN@, "LIMIT "@, 3, 282);
        lemma_contains_at(TOP_SINGERS_BETWEEN@, "JOIN singers sg ON pi.item_type = 'singer'"@, 64);
    } else if has_from && !has_to {
        reveal_strlit("SELECT sg.name, COUNT(*) as appearance_count FROM page_items pi JOIN singers sg ON pi.item_type = 'singer' AND pi.item_id = sg.id JOIN page_snapshots ps ON pi.page_snapshot_id = ps.id WHERE ps.crawled_at >= ?1 GROUP BY sg.name ORDER BY appearance_count DESC LIMIT ?2");
        reveal_strlit("?1");
        reveal_strlit("?2");
        reveal_strlit("JOIN singers sg ON pi.item_type = 'singer'");
        reveal_strlit("LIMIT ");
        reveal_strlit("ps.crawled_at >= ");
        lemma_binds_at(TOP_SINGERS_SINCE@, "ps.crawled_at >= "@, 1, 190);
        lemma_binds_at(TOP_SINGERS_SINCE@, "LIMIT "@, 2, 258);
        lemma_contains_at(TOP_SINGERS_SINCE@, "JOIN singers sg ON pi.item_type = 'singer'"@, 64);
    } else if !has_from && has_to {
        reveal_strlit("SELECT sg.name, COUNT(*) as appearance_count FROM page_items pi JOIN singers sg ON pi.item_type = 'singer' AND pi.item_id = sg.id JOIN page_snapshots ps ON pi.page_snapshot_id = ps.id WHERE ps.crawled_at <= ?1 GROUP BY sg.name ORDER BY appearance_count DESC LIMIT ?2");
        reveal_strlit("?1");
        reveal_strlit("?2");
        reveal_strlit("JOIN singers sg ON pi.item_type = 'singer'");
        reveal_strlit("LIMIT ");
        reveal_strlit("ps.crawled_at <= ");
        lemma_binds_at(TOP_SINGERS_UNTIL@, "ps.crawled_at <= "@, 1, 190);
        lemma_binds_at(TOP_SINGERS_UNTIL@, "LIMIT "@, 2, 258);
        lemma_contains_at(TOP_SINGERS_UNTIL@, "JOIN singers sg ON pi.item_type = 'singer'"@, 64);
    } else if !has_from && !has_to {
        reveal_strlit("SELECT sg.name, COUNT(*) as appearance_count FROM page_items pi JOIN singers sg ON pi.item_type = 'singer' AND pi.item_id = sg.id JOIN page_snapshots ps ON pi.page_snapshot_id = ps.id GROUP BY sg.name ORDER BY appearance_count DESC LIMIT ?1");
        reveal_strlit("?1");
        reveal_strlit("JOIN singers sg ON pi.item_type = 'singer'");
        reveal_strlit("LIMIT ");
        lemma_binds_at(TOP_SINGERS_ALL@, "LIMIT "@, 1, 232);
        lemma_contains_at(TOP_SINGERS_ALL@, "JOIN singers sg ON pi.item_type = 'singer'"@, 64);
    }
}

/// The snapshot listing reads the `page_snapshots` table and keeps, for
/// each filter given, the rows that pass it, each filter on its own
/// parameter in this order: the page type, the ranking type, crawled at or
/// after the lower bound, crawled at or before the upper bound; the limit
/// is its last parameter.
#[verifier::rlimit(50)]
pub proof fn lemma_snapshots_filters(has_type: bool, has_ranking: bool, has_from: bool, has_to: bool)
    ensures
        seq_contains(snapshots_sql(has_type, has_ranking, has_from, has_to), "FROM page_snapshots"@),
        has_type ==> binds(snapshots_sql(has_type, has_ranking, has_from, has_to), "page_type = "@, 1),
        has_ranking ==> binds(snapshots_sql(has_type, has_ranking, has_from, has_to), "ranking_type = "@, count(has_type) + 1),
        has_from ==> binds(snapshots_sql(has_type, has_ranking, has_from, has_to), "crawled_at >= "@,
            count(has_type) + count(has_ranking) + 1),
        has_to ==> binds(snapshots_sql(has_type, has_ranking, has_from, has_to), "crawled_at <= "@,
            count(has_type) + count(has_ranking) + count(has_from) + 1),
        binds(snapshots_sql(has_type, has_ranking, has_from, has_to), "LIMIT "@,
            count(has_type) + count(has_ranking) + count(has_from) + count(has_to) + 1),
{
    if has_type && has_ranking && has_from && has_to {
        reveal_strlit("SELECT * FROM page_snapshots WHERE page_type = ?1 AND ranking_type = ?2 AND crawled_at >= ?3 AND crawled_at <= ?4 ORDER BY crawled_at DESC LIMIT ?5");
        reveal_strlit("?1");
        reveal_strlit("?2");
        reveal_strlit("?3");
        reveal_strlit("?4");
        reveal_strlit("?5");
        reveal_strlit("FROM page_snapshots");
        reveal_strlit("LIMIT ");
        reveal_strlit("crawled_at <= ");
        reveal_strlit("crawled_at >= ");
        reveal_strlit("page_type = ");
        reveal_strlit("ranking_type = ");
        lemma_binds_at(SNAPSHOTS_TYPE_RANKING_SINCE_UNTIL@, "page_type = "@, 1, 35);
        lemma_binds_at(SNAPSHOTS_TYPE_RANKING_SINCE_UNTIL@, "ranking_type = "@, 2, 54);
        lemma_binds_at(SNAPSHOTS_TYPE_RANKING_SINCE_UNTIL@, "crawled_at >= "@, 3, 76);
        lemma_binds_at(SNAPSHOTS_TYPE_RANKING_SINCE_UNTIL@, "crawled_at <= "@, 4, 97);
        lemma_binds_at(SNAPSHOTS_TYPE_RANKING_SINCE_UNTIL@, "LIMIT "@, 5, 139);
        lemma_contains_at(SNAPSHOTS_TYPE_RANKING_SINCE_UNTIL@, "FROM page_snapshots"@, 9);
    } else if has_type && has_ranking && has_from && !has_to {
        reveal_strlit("SELECT * FROM page_snapshots WHERE page_type = ?1 AND ranking_type = ?2 AND crawled_at >= ?3 ORDER BY crawled_at DESC LIMIT ?4");
        reveal_strlit("?1");
        reveal_strlit("?2");
        reveal_strlit("?3");
        reveal_strlit("?4");
        reveal_strlit("FROM page_snapshots");
        reveal_strlit("LIMIT ");
        reveal_strlit("crawled_at >= ");
        reveal_strlit("page_type = ");
        reveal_strlit("ranking_type = ");
        lemma_binds_at(SNAPSHOTS_TYPE_RANKING_SINCE@, "page_type = "@, 1, 35);
        lemma_binds_at(SNAPSHOTS_TYPE_RANKING_SINCE@, "ranking_type = "@, 2, 54);
        lemma_binds_at(SNAPSHOTS_TYPE_RANKING_SINCE@, "crawled_at >= "@, 3, 76);
        lemma_binds_at(SNAPSHOTS_TYPE_RANKING_SINCE@, "LIMIT "@, 4, 118);
        lemma_contains_at(SNAPSHOTS_TYPE_RANKING_SINCE@, "FROM page_snapshots"@, 9);
    } else if has_type && has_ranking && !has_from && has_to {
        reveal_strlit("SELECT * FROM page_snapshots WHERE page_type = ?1 AND ranking_type = ?2 AND crawled_at <= ?3 ORDER BY crawled_at DESC LIMIT ?4");
        reveal_strlit("?1");
        reveal_strlit("?2");
        reveal_strlit("?3");
        reveal_strlit("?4");
        reveal_strlit("FROM page_snapshots");
        reveal_strlit("LIMIT ");
        reveal_strlit("crawled_at <= ");
        reveal_strlit("page_type = ");
        reveal_strlit("ranking_type = ");
        lemma_binds_at(SNAPSHOTS_TYPE_RANKING_UNTIL@, "page_type = "@, 1, 35);
        lemma_binds_at(SNAPSHOTS_TYPE_RANKING_UNTIL@, "ranking_type = "@, 2, 54);
        lemma_binds_at(SNAPSHOTS_TYPE_RANKING_UNTIL@, "crawled_at <= "@, 3, 76);
        lemma_binds_at(SNAPSHOTS_TYPE_RANKING_UNTIL@, "LIMIT "@, 4, 118);
        lemma_contains_at(SNAPSHOTS_TYPE_RANKING_UNTIL@, "FROM page_snapshots"@, 9);
    } else if has_type && has_ranking && !has_from && !has_to {
        reveal_strlit("SELECT * FROM page_snapshots WHERE page_type = ?1 AND ranking_type = ?2 ORDER BY crawled_at DESC LIMIT ?3");
        reveal_strlit("?1");
        reveal_strlit("?2");
        reveal_strlit("?3");
        reveal_strlit("FROM page_snapshots");
        reveal_strlit("LIMIT ");
        reveal_strlit("page_type = ");
        reveal_strlit("ranking_type = ");
        lemma_binds_at(SNAPSHOTS_TYPE_RANKING@, "page_type = "@, 1, 35);
        lemma_binds_at(SNAPSHOTS_TYPE_RANKING@, "ranking_type = "@, 2, 54);
        lemma_binds_at(SNAPSHOTS_TYPE_RANKING@, "LIMIT "@, 3, 97);
        lemma_contains_at(SNAPSHOTS_TYPE_RANKING@, "FROM page_snapshots"@, 9);
    } else if has_type && !has_ranking && has_from && has_to {
        reveal_strlit("SELECT * FROM page_snapshots WHERE page_type = ?1 AND crawled_at >= ?2 AND crawled_at <= ?3 ORDER BY crawled_at DESC LIMIT ?4");
        reveal_strlit("?1");
        reveal_strlit("?2");
        reveal_strlit("?3");
        reveal_strlit("?4");
        reveal_strlit("FROM page_snapshots");
        reveal_strlit("LIMIT ");
        reveal_strlit("crawled_at <= ");
        reveal_strlit("crawled_at >= ");
        reveal_strlit("page_type = ");
        lemma_binds_at(SNAPSHOTS_TYPE_SINCE_UNTIL@, "page_type = "@, 1, 35);
        lemma_binds_at(SNAPSHOTS_TYPE_SINCE_UNTIL@, "crawled_at >= "@, 2, 54);
        lemma_binds_at(SNAPSHOTS_TYPE_SINCE_UNTIL@, "crawled_at <= "@, 3, 75);
        lemma_binds_at(SNAPSHOTS_TYPE_SINCE_UNTIL@, "LIMIT "@, 4, 117);
        lemma_contains_at(SNAPSHOTS_TYPE_SINCE_UNTIL@, "FROM page_snapshots"@, 9);
    } else if has_type && !has_ranking && has_from && !has_to {
        reveal_strlit("SELECT * FROM page_snapshots WHERE page_type = ?1 AND crawled_at >= ?2 ORDER BY crawled_at DESC LIMIT ?3");
        reveal_strlit("?1");
        reveal_strlit("?2");
        reveal_strlit("?3");
        reveal_strlit("FROM page_snapshots");
        reveal_strlit("LIMIT ");
        reveal_strlit("crawled_at >= ");
        reveal_strlit("page_type = ");
        lemma_binds_at(SNAPSHOTS_TYPE_SINCE@, "page_type = "@, 1, 35);
        lemma_binds_at(SNAPSHOTS_TYPE_SINCE@, "crawled_at >= "@, 2, 54);
        lemma_binds_at(SNAPSHOTS_TYPE_SINCE@, "LIMIT "@, 3, 96);
        lemma_contains_at(SNAPSHOTS_TYPE_SINCE@, "FROM page_snapshots"@, 9);
    } else if has_type && !has_ranking && !has_from && has_to {
        reveal_strlit("SELECT * FROM page_snapshots WHERE page_type = ?1 AND crawled_at <= ?2 ORDER BY crawled_at DESC LIMIT ?3");
        reveal_strlit("?1");
        reveal_strlit("?2");
        reveal_strlit("?3");
        reveal_strlit("FROM page_snapshots");
        reveal_strlit("LIMIT ");
        reveal_strlit("crawled_at <= ");
        reveal_strlit("page_type = ");
        lemma_binds_at(SNAPSHOTS_TYPE_UNTIL@, "page_type = "@, 1, 35);
        lemma_binds_at(SNAPSHOTS_TYPE_UNTIL@, "crawled_at <= "@, 2, 54);
        lemma_binds_at(SNAPSHOTS_TYPE_UNTIL@, "LIMIT "@, 3, 96);
        lemma_contains_at(SNAPSHOTS_TYPE_UNTIL@, "FROM page_snapshots"@, 9);
    } else if has_type && !has_ranking && !has_from && !has_to {
        reveal_strlit("SELECT * FROM page_snapshots WHERE page_type = ?1 ORDER BY crawled_at DESC LIMIT ?2");
        reveal_strlit("?1");
        reveal_strlit("?2");
        reveal_strlit("FROM page_snapshots");
        reveal_strlit("LIMIT ");
        reveal_strlit("page_type = ");
        lemma_binds_at(SNAPSHOTS_TYPE@, "page_type = "@, 1, 35);
        lemma_binds_at(SNAPSHOTS_TYPE@, "LIMIT "@, 2, 75);
        lemma_contains_at(SNAPSHOTS_TYPE@, "FROM page_snapshots"@, 9);
    } else if !has_type && has_ranking && has_from && has_to {
        reveal_strlit("SELECT * FROM page_snapshots WHERE ranking_type = ?1 AND crawled_at >= ?2 AND crawled_at <= ?3 ORDER BY crawled_at DESC LIMIT ?4");
        reveal_strlit("?1");
        reveal_strlit("?2");
        reveal_strlit("?3");
        reveal_strlit("?4");
        reveal_strlit("FROM page_snapshots");
        reveal_strlit("LIMIT ");
        reveal_strlit("crawled_at <= ");
        reveal_strlit("crawled_at >= ");
        reveal_strlit("ranking_type = ");
        lemma_binds_at(SNAPSHOTS_RANKING_SINCE_UNTIL@, "ranking_type = "@, 1, 35);
        lemma_binds_at(SNAPSHOTS_RANKING_SINCE_UNTIL@, "crawled_at >= "@, 2, 57);
        lemma_binds_at(SNAPSHOTS_RANKING_SINCE_UNTIL@, "crawled_at <= "@, 3, 78);
        lemma_binds_at(SNAPSHOTS_RANKING_SINCE_UNTIL@, "LIMIT "@, 4, 120);
        lemma_contains_at(SNAPSHOTS_RANKING_SINCE_UNTIL@, "FROM page_snapshots"@, 9);
    } else if !has_type && has_ranking && has_from && !has_to {
        reveal_strlit("SELECT * FROM page_snapshots WHERE ranking_type = ?1 AND crawled_at >= ?2 ORDER BY crawled_at DESC LIMIT ?3");
        reveal_strlit("?1");
        reveal_strlit("?2");
        reveal_strlit("?3");
        reveal_strlit("FROM page_snapshots");
        reveal_strlit("LIMIT ");
        reveal_strlit("crawled_at >= ");
        reveal_strlit("ranking_type = ");
        lemma_binds_at(SNAPSHOTS_RANKING_SINCE@, "ranking_type = "@, 1, 35);
        lemma_binds_at(SNAPSHOTS_RANKING_SINCE@, "crawled_at >= "@, 2, 57);
        lemma_binds_at(SNAPSHOTS_RANKING_SINCE@, "LIMIT "@, 3, 99);
        lemma_contains_at(SNAPSHOTS_RANKING_SINCE@, "FROM page_snapshots"@, 9);
    } else if !has_type && has_ranking && !has_from && has_to {
        reveal_strlit("SELECT * FROM page_snapshots WHERE ranking_type = ?1 AND crawled_at <= ?2 ORDER BY crawled_at DESC LIMIT ?3");
        reveal_strlit("?1");
        reveal_strlit("?2");
        reveal_strlit("?3");
        reveal_strlit("FROM page_snapshots");
        reveal_strlit("LIMIT ");
        reveal_strlit("crawled_at <= ");
        reveal_strlit("ranking_type = ");
        lemma_binds_at(SNAPSHOTS_RANKING_UNTIL@, "ranking_type = "@, 1, 35);
        lemma_binds_at(SNAPSHOTS_RANKING_UNTIL@, "crawled_at <= "@, 2, 57);
        lemma_binds_at(SNAPSHOTS_RANKING_UNTIL@, "LIMIT "@, 3, 99);
        lemma_contains_at(SNAPSHOTS_RANKING_UNTIL@, "FROM page_snapshots"@, 9);
    } else if !has_type && has_ranking && !has_from && !has_to {
        reveal_strlit("SELECT * FROM page_snapshots WHERE ranking_type = ?1 ORDER BY crawled_at DESC LIMIT ?2");
        reveal_strlit("?1");
        reveal_strlit("?2");
        reveal_strlit("FROM page_snapshots");
        reveal_strlit("LIMIT ");
        reveal_strlit("ranking_type = ");
        lemma_binds_at(SNAPSHOTS_RANKING@, "ranking_type = "@, 1, 35);
        lemma_binds_at(SNAPSHOTS_RANKING@, "LIMIT "@, 2, 78);
        lemma_contains_at(SNAPSHOTS_RANKING@, "FROM page_snapshots"@, 9);
    } else if !has_type && !has_ranking && has_from && has_to {
        reveal_strlit("SELECT * FROM page_snapshots WHERE crawled_at >= ?1 AND crawled_at <= ?2 ORDER BY crawled_at DESC LIMIT ?3");
        reveal_strlit("?1");
        reveal_strlit("?2");
        reveal_strlit("?3");
        reveal_strlit("FROM page_snapshots");
        reveal_strlit("LIMIT ");
        reveal_strlit("crawled_at <= ");
        reveal_strlit("crawled_at >= ");
        lemma_binds_at(SNAPSHOTS_SINCE_UNTIL@, "crawled_at >= "@, 1, 35);
        lemma_binds_at(SNAPSHOTS_SINCE_UNTIL@, "crawled_at <= "@, 2, 56);
        lemma_binds_at(SNAPSHOTS_SINCE_UNTIL@, "LIMIT "@, 3, 98);
        lemma_contains_at(SNAPSHOTS_SINCE_UNTIL@, "FROM page_snapshots"@, 9);
    } else if !has_type && !has_ranking && has_from && !has_to {
        reveal_strlit("SELECT * FROM page_snapshots WHERE crawled_at >= ?1 ORDER BY crawled_at DESC LIMIT ?2");
        reveal_strlit("?1");
        reveal_strlit("?2");
        reveal_strlit("FROM page_snapshots");
        reveal_strlit("LIMIT ");
        reveal_strlit("crawled_at >= ");
        lemma_binds_at(SNAPSHOTS_SINCE@, "crawled_at >= "@, 1, 35);
        lemma_binds_at(SNAPSHOTS_SINCE@, "LIMIT "@, 2, 77);
        lemma_contains_at(SNAPSHOTS_SINCE@, "FROM page_snapshots"@, 9);
    } else if !has_type && !has_ranking && !has_from && has_to {
        reveal_strlit("SELECT * FROM page_snapshots WHERE crawled_at <= ?1 ORDER BY crawled_at DESC LIMIT ?2");
        reveal_strlit("?1");
        reveal_strlit("?2");
        reveal_strlit("FROM page_snapshots");
        reveal_strlit("LIMIT ");
        reveal_strlit("crawled_at <= ");
        lemma_binds_at(SNAPSHOTS_UNTIL@, "crawled_at <= "@, 1, 35);
        lemma_binds_at(SNAPSHOTS_UNTIL@, "LIMIT "@, 2, 77);
        lemma_contains_at(SNAPSHOTS_UNTIL@, "FROM page_snapshots"@, 9);
    } else if !has_type && !has_ranking && !has_from && !has_to {
        reveal_strlit("SELECT * FROM page_snapshots ORDER BY crawled_at DESC LIMIT ?1");
        reveal_strlit("?1");
        reveal_strlit("FROM page_snapshots");
        reveal_strlit("LIMIT ");
        lemma_binds_at(SNAPSHOTS_ALL@, "LIMIT "@, 1, 54);
        lemma_contains_at(SNAPSHOTS_ALL@, "FROM page_snapshots"@, 9);
    }
}

/// The parameters of a snapshot listing are the filters given, in the
/// order their clauses number them, then the limit: the `k`-th parameter
/// is the value of the clause on `?k`.
pub proof fn lemma_snapshot_params_order(page_type: Option<&str>, ranking_type: Option<&str>, limit: i64, from: Option<&str>, to: Option<&str>)
    ensures
        ({
            let p = filter_params(opt_ref_view(page_type)) + filter_params(opt_ref_view(ranking_type))
                + window_params(from, to, limit);
            &&& page_type matches Some(t) ==> p[0] == SqlParamView::Text(t@)
            &&& ranking_type matches Some(r) ==> p[given(page_type) as int] == SqlParamView::Text(r@)
            &&& from matches Some(f) ==> p[(given(page_type) + given(ranking_type)) as int] == SqlParamView::Text(f@)
            &&& to matches Some(u) ==> p[(given(page_type) + given(ranking_type) + given(from)) as int] == SqlParamView::Text(u@)
            &&& p[(given(page_type) + given(ranking_type) + given(from) + given(to)) as int] == SqlParamView::Integer(limit)
        }),
{
}

/// The parameters of a window query are the bounds given, lower first,
/// then the limit.
pub proof fn lemma_window_params_order(from: Option<&str>, to: Option<&str>, limit: i64)
    ensures
        from matches Some(f) ==> window_params(from, to, limit)[0] == SqlParamView::Text(f@),
        to matches Some(u) ==> window_params(from, to, limit)[given(from) as int] == SqlParamView::Text(u@),
        window_params(from, to, limit)[(given(from) + given(to)) as int] == SqlParamView::Integer(limit),
{
}

/// Each count query counts the rows of its own table, and each appearance
/// count counts the positions of the song (by site id) or singer (by name)
/// given as its parameter, on all pages, on home pages only, or on ranking
/// pages only.
#[verifier::rlimit(50)]
pub proof fn lemma_counts_read_their_tables()
    ensures
        seq_contains(COUNT_SINGERS@, "COUNT(*) FROM singers"@),
        seq_contains(COUNT_SONGS@, "COUNT(*) FROM songs"@),
        seq_contains(COUNT_RANKINGS@, "COUNT(*) FROM rankings"@),
        seq_contains(COUNT_SEARCH_KEYWORDS@, "COUNT(*) FROM search_keywords"@),
        seq_contains(COUNT_DOWNLOADS@, "COUNT(*) FROM downloads"@),
        seq_contains(COUNT_PAGE_SNAPSHOTS@, "COUNT(*) FROM page_snapshots"@),
        seq_contains(COUNT_PAGE_ITEMS@, "COUNT(*) FROM page_items"@),
        seq_contains(SONG_APPEARANCES@, "item_type = 'song'"@),
        seq_contains(SONG_APPEARANCES@, "WHERE song_id = ?1"@),
        seq_contains(SONG_APPEARANCES_ON_HOMEPAGE@, "item_type = 'song'"@),
        seq_contains(SONG_APPEARANCES_ON_HOMEPAGE@, "WHERE song_id = ?1"@),
        seq_contains(SONG_APPEARANCES_ON_HOMEPAGE@, "ps.page_type = 'homepage'"@),
        seq_contains(SONG_APPEARANCES_ON_RANKING@, "item_type = 'song'"@),
        seq_contains(SONG_APPEARANCES_ON_RANKING@, "WHERE song_id = ?1"@),
        seq_contains(SONG_APPEARANCES_ON_RANKING@, "ps.page_type = 'ranking'"@),
        seq_contains(SINGER_APPEARANCES@, "item_type = 'singer'"@),
        seq_contains(SINGER_APPEARANCES@, "WHERE name = ?1"@),
        seq_contains(SINGER_APPEARANCES_ON_HOMEPAGE@, "item_type = 'singer'"@),
        seq_contains(SINGER_APPEARANCES_ON_HOMEPAGE@, "WHERE name = ?1"@),
        seq_contains(SINGER_APPEARANCES_ON_HOMEPAGE@, "ps.page_type = 'homepage'"@),
        seq_contains(SINGER_APPEARANCES_ON_RANKING@, "item_type = 'singer'"@),
        seq_contains(SINGER_APPEARANCES_ON_RANKING@, "WHERE name = ?1"@),
        seq_contains(SINGER_APPEARANCES_ON_RANKING@, "ps.page_type = 'ranking'"@),
{
    reveal_strlit("SELECT COUNT(*) FROM singers");
    reveal_strlit("SELECT COUNT(*) FROM songs");
    reveal_strlit("SELECT COUNT(*) FROM rankings");
    reveal_strlit("SELECT COUNT(*) FROM search_keywords");
    reveal_strlit("SELECT COUNT(*) FROM downloads");
    reveal_strlit("SELECT COUNT(*) FROM page_snapshots");
    reveal_strlit("SELECT COUNT(*) FROM page_items");
    reveal_strlit("SELECT COUNT(*) FROM page_items WHERE item_type = 'song' AND item_id = (SELECT id FROM songs WHERE song_id = ?1)");
    reveal_strlit("SELECT COUNT(*) FROM page_items pi JOIN page_snapshots ps ON pi.page_snapshot_id = ps.id WHERE pi.item_type = 'song' AND pi.item_id = (SELECT id FROM songs WHERE song_id = ?1) AND ps.page_type = 'homepage'");
    reveal_strlit("SELECT COUNT(*) FROM page_items pi JOIN page_snapshots ps ON pi.page_snapshot_id = ps.id WHERE pi.item_type = 'song' AND pi.item_id = (SELECT id FROM songs WHERE song_id = ?1) AND ps.page_type = 'ranking'");
    reveal_strlit("SELECT COUNT(*) FROM page_items WHERE item_type = 'singer' AND item_id = (SELECT id FROM singers WHERE name = ?1)");
    reveal_strlit("SELECT COUNT(*) FROM page_items pi JOIN page_snapshots ps ON pi.page_snapshot_id = ps.id WHERE pi.item_type = 'singer' AND pi.item_id = (SELECT id FROM singers WHERE name = ?1) AND ps.page_type = 'homepage'");
    reveal_strlit("SELECT COUNT(*) FROM page_items pi JOIN page_snapshots ps ON pi.page_snapshot_id = ps.id WHERE pi.item_type = 'singer' AND pi.item_id = (SELECT id FROM singers WHERE name = ?1) AND ps.page_type = 'ranking'");
    reveal_strlit("COUNT(*) FROM downloads");
    reveal_strlit("COUNT(*) FROM page_items");
    reveal_strlit("COUNT(*) FROM page_snapshots");
    reveal_strlit("COUNT(*) FROM rankings");
    reveal_strlit("COUNT(*) FROM search_keywords");
    reveal_strlit("COUNT(*) FROM singers");
    reveal_strlit("COUNT(*) FROM songs");
    reveal_strlit("WHERE name = ?1");
    reveal_strlit("WHERE song_id = ?1");
    reveal_strlit("item_type = 'singer'");
    reveal_strlit("item_type = 'song'");
    reveal_strlit("ps.page_type = 'homepage'");
    reveal_strlit("ps.page_type = 'ranking'");
    lemma_contains_at(COUNT_SINGERS@, "COUNT(*) FROM singers"@, 7);
    lemma_contains_at(COUNT_SONGS@, "COUNT(*) FROM songs"@, 7);
    lemma_contains_at(COUNT_RANKINGS@, "COUNT(*) FROM rankings"@, 7);
    lemma_contains_at(COUNT_SEARCH_KEYWORDS@, "COUNT(*) FROM search_keywords"@, 7);
    lemma_contains_at(COUNT_DOWNLOADS@, "COUNT(*) FROM downloads"@, 7);
    lemma_contains_at(COUNT_PAGE_SNAPSHOTS@, "COUNT(*) FROM page_snapshots"@, 7);
    lemma_contains_at(COUNT_PAGE_ITEMS@, "COUNT(*) FROM page_items"@, 7);
    lemma_contains_at(SONG_APPEARANCES@, "item_type = 'song'"@, 38);
    lemma_contains_at(SONG_APPEARANCES@, "WHERE song_id = ?1"@, 93);
    lemma_contains_at(SONG_APPEARANCES_ON_HOMEPAGE@, "item_type = 'song'"@, 98);
    lemma_contains_at(SONG_APPEARANCES_ON_HOMEPAGE@, "WHERE song_id = ?1"@, 156);
    lemma_contains_at(SONG_APPEARANCES_ON_HOMEPAGE@, "ps.page_type = 'homepage'"@, 180);
    lemma_contains_at(SONG_APPEARANCES_ON_RANKING@, "item_type = 'song'"@, 98);
    lemma_contains_at(SONG_APPEARANCES_ON_RANKING@, "WHERE song_id = ?1"@, 156);
    lemma_contains_at(SONG_APPEARANCES_ON_RANKING@, "ps.page_type = 'ranking'"@, 180);
    lemma_contains_at(SINGER_APPEARANCES@, "item_type = 'singer'"@, 38);
    lemma_contains_at(SINGER_APPEARANCES@, "WHERE name = ?1"@, 97);
    lemma_contains_at(SINGER_APPEARANCES_ON_HOMEPAGE@, "item_type = 'singer'"@, 98);
    lemma_contains_at(SINGER_APPEARANCES_ON_HOMEPAGE@, "WHERE name = ?1"@, 160);
    lemma_contains_at(SINGER_APPEARANCES_ON_HOMEPAGE@, "ps.page_type = 'homepage'"@, 181);
    lemma_contains_at(SINGER_APPEARANCES_ON_RANKING@, "item_type = 'singer'"@, 98);
    lemma_contains_at(SINGER_APPEARANCES_ON_RANKING@, "WHERE name = ?1"@, 160);
    lemma_contains_at(SINGER_APPEARANCES_ON_RANKING@, "ps.page_type = 'ranking'"@, 181);
}

} // verus!
