//! What a crawl stores: the snapshot of the page, the singers and songs it
//! shows, their ranking entries and their positions on the page.
//!
//! The builders state exactly which record each crawled item becomes; the
//! `record_*` functions store them through the [`Database`].

use vstd::prelude::*;
use crate::crawlers::download::{DownloadResult, DownloadSongInfo};
use crate::crawlers::homepage::{HomepageData, HotSinger, RankedKeyword, SearchKeywordItem};
use crate::crawlers::ranking::{RankingPageData, SingerRank, SongRank};
use crate::crawlers::search::{SearchResult, SongSearchResult, search_url_spec};
use crate::database::{
    CTX_CONNECT, CTX_INSERT_DOWNLOAD, CTX_INSERT_KEYWORD, CTX_INSERT_PAGE_ITEM, CTX_INSERT_RANKING,
    CTX_INSERT_SINGER, CTX_INSERT_SNAPSHOT, CTX_INSERT_SONG, CTX_SINGER_ID, CTX_SONG_ID, Database,
    DbError, INSERT_DOWNLOAD, download_params_spec, INSERT_KEYWORD, INSERT_PAGE_ITEM, INSERT_RANKING, INSERT_SINGER,
    INSERT_SNAPSHOT, INSERT_SONG, SINGER_ID_BY_NAME, SONG_ID_BY_SONG_ID, Statement, has_context,
    keyword_params_spec, opt_int_param, ranking_links, ranking_lookups, ranking_params_spec, ranking_ref_spec, singer_params_spec,
    snapshot_params_spec, song_params_spec, opt_text_param, page_item_params_spec, page_item_writes, sqlite_failure, with_int, with_text,
};
use crate::sqlite::SqlParamView;
use crate::models::{DownloadRecord, PageItem, PageSnapshot, RankingItem, SearchKeyword, Singer, Song};
use crate::pattern::opt_str_view;
use crate::text::{concat, owned};

verus! {

/// The JSON text that `serde_json` writes for an object whose members are
/// the pairs of `entries`, each value a JSON string.
pub uninterp spec fn json_object_of(entries: Seq<(Seq<char>, Seq<char>)>) -> Seq<char>;

/// The view of a list of string pairs.
pub open spec fn pairs_view(entries: Seq<(String, String)>) -> Seq<(Seq<char>, Seq<char>)> {
    entries.map_values(|e: (String, String)| (e.0@, e.1@))
}

/// Writes a JSON object of string members (a `serde_json::Map` filled in
/// order, as `serde_json::Value::Object`, then its `to_string`). The text
/// is named, not stated: it is what `serde_json` prints for those pairs.
#[verifier::external_body]
fn json_object_text(entries: &Vec<(String, String)>) -> (r: String)
    ensures
        r@ == json_object_of(pairs_view(entries@)),
{
    serde_json::Value::Object(
        entries.iter().map(|e| (e.0.clone(), serde_json::Value::String(e.1.clone()))).collect(),
    ).to_string()
}

/// The JSON object with the one string member `key: value`.
fn json_one(key: &str, value: &String) -> (r: String)
    ensures
        r@ == json_object_of(seq![(key@, value@)]),
{
    let mut entries: Vec<(String, String)> = Vec::new();
    entries.push((owned(key), value.clone()));
    assert(pairs_view(entries@) =~= seq![(key@, value@)]);
    json_object_text(&entries)
}

/// The JSON object with the string members `k1: v1` and `k2: v2`.
fn json_two(k1: &str, v1: &String, k2: &str, v2: &String) -> (r: String)
    ensures
        r@ == json_object_of(seq![(k1@, v1@), (k2@, v2@)]),
{
    let mut entries: Vec<(String, String)> = Vec::new();
    entries.push((owned(k1), v1.clone()));
    entries.push((owned(k2), v2.clone()));
    assert(pairs_view(entries@) =~= seq![(k1@, v1@), (k2@, v2@)]);
    json_object_text(&entries)
}

/// The JSON object with the string members `k1: v1`, `k2: v2`, `k3: v3`.
fn json_three(k1: &str, v1: &String, k2: &str, v2: &String, k3: &str, v3: &String) -> (r: String)
    ensures
        r@ == json_object_of(seq![(k1@, v1@), (k2@, v2@), (k3@, v3@)]),
{
    let mut entries: Vec<(String, String)> = Vec::new();
    entries.push((owned(k1), v1.clone()));
    entries.push((owned(k2), v2.clone()));
    entries.push((owned(k3), v3.clone()));
    assert(pairs_view(entries@) =~= seq![(k1@, v1@), (k2@, v2@), (k3@, v3@)]);
    json_object_text(&entries)
}

// ---------------------------------------------------------------------
// Home page
// ---------------------------------------------------------------------

/// The address recorded for the home page.
pub const HOMEPAGE_URL: &'static str = "https://www.gequke.com/";

/// The title recorded for the home page.
pub const HOMEPAGE_TITLE: &'static str = "歌曲客主页";

/// The snapshot of a crawl of the home page.
pub fn homepage_snapshot() -> (s: PageSnapshot)
    ensures
        s.page_type@ == "homepage"@,
        s.ranking_type is None,
        s.search_keyword is None,
        s.page_number == 1,
        opt_str_view(s.url) == Some(HOMEPAGE_URL@),
        opt_str_view(s.title) == Some(HOMEPAGE_TITLE@),
{
    PageSnapshot {
        page_type: owned("homepage"),
        ranking_type: None,
        search_keyword: None,
        page_number: 1,
        url: Some(owned(HOMEPAGE_URL)),
        title: Some(owned(HOMEPAGE_TITLE)),
    }
}

/// The singer stored for a hot singer of the home page: its name, no
/// avatar, and its page as its songs page.
pub fn hot_singer_record(item: &HotSinger) -> (s: Singer)
    ensures
        s.name@ == item.name@,
        s.avatar_url is None,
        opt_str_view(s.songs_url) == Some(item.url@),
{
    Singer { name: item.name.clone(), avatar_url: None, songs_url: Some(item.url.clone()) }
}

/// The position of a hot singer on the home page snapshot `snapshot_id`,
/// with its address as extra data.
pub fn hot_singer_item(snapshot_id: i64, singer_id: i64, item: &HotSinger) -> (p: PageItem)
    ensures
        p.page_snapshot_id == snapshot_id,
        p.item_type@ == "singer"@,
        p.item_id == Some(singer_id),
        p.position == item.rank,
        opt_str_view(p.extra_data) == Some(json_object_of(seq![("url"@, item.url@)])),
{
    PageItem {
        page_snapshot_id: snapshot_id,
        item_type: owned("singer"),
        item_id: Some(singer_id),
        position: item.rank,
        extra_data: Some(json_one("url", &item.url)),
    }
}

/// The keyword stored for a latest search of the home page: source
/// `latest`, no rank.
pub fn latest_keyword_record(item: &SearchKeywordItem) -> (k: SearchKeyword)
    ensures
        k.keyword@ == item.keyword@,
        k.source@ == "latest"@,
        k.rank is None,
{
    SearchKeyword { keyword: item.keyword.clone(), source: owned("latest"), rank: None }
}

/// The keyword stored for a hot keyword of the home page: source `hot`,
/// with its rank.
pub fn hot_keyword_record(item: &RankedKeyword) -> (k: SearchKeyword)
    ensures
        k.keyword@ == item.keyword@,
        k.source@ == "hot"@,
        k.rank == Some(item.rank),
{
    SearchKeyword { keyword: item.keyword.clone(), source: owned("hot"), rank: Some(item.rank) }
}

/// What storing a home page wrote: keywords, and singers with their
/// positions.
pub struct HomepageCounts {
    pub latest_searches: usize,
    pub hot_keywords: usize,
    pub singers: usize,
}

/// Whether `e` is an error of storing a home page.
pub open spec fn homepage_store_failure(e: DbError) -> bool {
    ||| has_context(e, CTX_CONNECT)
    ||| has_context(e, CTX_INSERT_SNAPSHOT)
    ||| has_context(e, CTX_INSERT_KEYWORD)
    ||| has_context(e, CTX_INSERT_SINGER)
    ||| has_context(e, CTX_SINGER_ID)
    ||| has_context(e, CTX_INSERT_PAGE_ITEM)
}

/// The snapshot that storing a home page writes.
pub open spec fn homepage_snapshot_write() -> Statement {
    (INSERT_SNAPSHOT@, seq![
        SqlParamView::Text("homepage"@),
        SqlParamView::Null,
        SqlParamView::Null,
        SqlParamView::Integer(1),
        SqlParamView::Text(HOMEPAGE_URL@),
        SqlParamView::Text(HOMEPAGE_TITLE@),
    ])
}

/// The keyword that storing a home page writes for a latest search.
pub open spec fn latest_keyword_write(k: SearchKeywordItem) -> Statement {
    (INSERT_KEYWORD@, seq![SqlParamView::Text(k.keyword@), SqlParamView::Text("latest"@), SqlParamView::Null])
}

/// The keyword that storing a home page writes for a hot keyword.
pub open spec fn hot_keyword_write(k: RankedKeyword) -> Statement {
    (INSERT_KEYWORD@, seq![SqlParamView::Text(k.keyword@), SqlParamView::Text("hot"@), SqlParamView::Integer(k.rank as i64)])
}

/// The singer that storing a home page writes for a hot singer.
pub open spec fn hot_singer_write(s: HotSinger) -> Statement {
    (INSERT_SINGER@, seq![SqlParamView::Text(s.name@), SqlParamView::Null, SqlParamView::Text(s.url@)])
}

/// The position that storing a home page writes for a hot singer stored as
/// singer row `singer_id` on snapshot `snapshot_id`.
pub open spec fn hot_singer_position(snapshot_id: i64, singer_id: i64, s: HotSinger) -> Statement {
    (INSERT_PAGE_ITEM@, seq![
        SqlParamView::Integer(snapshot_id),
        SqlParamView::Text("singer"@),
        SqlParamView::Integer(singer_id),
        SqlParamView::Integer(s.rank as i64),
        SqlParamView::Text(json_object_of(seq![("url"@, s.url@)])),
    ])
}

/// The keywords that storing a home page writes: each latest search, then
/// each hot keyword.
pub open spec fn homepage_keyword_writes(data: HomepageData) -> Seq<Statement> {
    data.latest_searches@.map_values(|k: SearchKeywordItem| latest_keyword_write(k))
        + data.hot_keywords@.map_values(|k: RankedKeyword| hot_keyword_write(k))
}

/// Everything storing a home page writes, in order, given the row id of
/// its snapshot and those of its hot singers: the snapshot, the keywords,
/// each hot singer, then the position of each hot singer.
pub open spec fn homepage_writes(data: HomepageData, snapshot_id: i64, singer_ids: Seq<i64>) -> Seq<Statement> {
    seq![homepage_snapshot_write()] + homepage_keyword_writes(data)
        + data.hot_singers@.map_values(|s: HotSinger| hot_singer_write(s))
        + Seq::new(data.hot_singers@.len(), |i: int| hot_singer_position(snapshot_id, singer_ids[i], data.hot_singers@[i]))
}

/// The lookup of the row id of each hot singer stored by name.
pub open spec fn hot_singer_lookups(singers: Seq<HotSinger>) -> Seq<Statement> {
    singers.map_values(|s: HotSinger| with_text(SINGER_ID_BY_NAME@, s.name@))
}

fn record_keywords(db: &mut Database, data: &HomepageData) -> (r: Result<(usize, usize), DbError>)
    ensures
        final(db).path() == old(db).path(),
        final(db).reads() == old(db).reads(),
        r matches Ok(n) ==> n.0 == data.latest_searches@.len() && n.1 == data.hot_keywords@.len()
            && final(db).writes() == old(db).writes() + homepage_keyword_writes(*data),
        r matches Err(e) ==> homepage_store_failure(e),
{
    let ghost w0 = db.writes();
    let mut i: usize = 0;
    while i < data.latest_searches.len()
        invariant
            i <= data.latest_searches@.len(),
            db.path() == old(db).path(),
            db.reads() == old(db).reads(),
            db.writes() == w0 + data.latest_searches@.take(i as int).map_values(|k: SearchKeywordItem| latest_keyword_write(k)),
        decreases data.latest_searches.len() - i,
    {
        let item = &data.latest_searches[i];
        let rec = latest_keyword_record(item);
        assert(keyword_params_spec(rec) =~= latest_keyword_write(*item).1);
        match db.insert_search_keyword(&rec) {
            Ok(_) => {},
            Err(e) => return Err(e),
        }
        assert(data.latest_searches@.take(i + 1) =~= data.latest_searches@.take(i as int).push(*item));
        assert(data.latest_searches@.take(i + 1).map_values(|k: SearchKeywordItem| latest_keyword_write(k))
            =~= data.latest_searches@.take(i as int).map_values(|k: SearchKeywordItem| latest_keyword_write(k)).push(latest_keyword_write(*item)));
        i = i + 1;
    }
    assert(data.latest_searches@.take(i as int) =~= data.latest_searches@);
    let ghost w1 = db.writes();
    let mut j: usize = 0;
    while j < data.hot_keywords.len()
        invariant
            j <= data.hot_keywords@.len(),
            db.path() == old(db).path(),
            db.reads() == old(db).reads(),
            db.writes() == w1 + data.hot_keywords@.take(j as int).map_values(|k: RankedKeyword| hot_keyword_write(k)),
        decreases data.hot_keywords.len() - j,
    {
        let item = &data.hot_keywords[j];
        let rec = hot_keyword_record(item);
        assert(keyword_params_spec(rec) =~= hot_keyword_write(*item).1);
        match db.insert_search_keyword(&rec) {
            Ok(_) => {},
            Err(e) => return Err(e),
        }
        assert(data.hot_keywords@.take(j + 1) =~= data.hot_keywords@.take(j as int).push(*item));
        assert(data.hot_keywords@.take(j + 1).map_values(|k: RankedKeyword| hot_keyword_write(k))
            =~= data.hot_keywords@.take(j as int).map_values(|k: RankedKeyword| hot_keyword_write(k)).push(hot_keyword_write(*item)));
        j = j + 1;
    }
    assert(data.hot_keywords@.take(j as int) =~= data.hot_keywords@);
    assert(db.writes() =~= w0 + homepage_keyword_writes(*data));
    Ok((i, j))
}

/// Stores a crawl of the home page: its snapshot, each latest search
/// (source `latest`) and hot keyword (source `hot`, with its rank), each
/// hot singer, and the position of each singer on the page.
pub fn record_homepage(db: &mut Database, data: &HomepageData) -> (r: Result<HomepageCounts, DbError>)
    ensures
        final(db).path() == old(db).path(),
        r matches Ok(c) ==> c.latest_searches == data.latest_searches@.len()
            && c.hot_keywords == data.hot_keywords@.len() && c.singers == data.hot_singers@.len()
            && final(db).reads() == old(db).reads() + hot_singer_lookups(data.hot_singers@)
            && exists|snapshot_id: i64, singer_ids: Seq<i64>|
                singer_ids.len() == data.hot_singers@.len() && final(db).writes() == old(db).writes()
                    + homepage_writes(*data, snapshot_id, singer_ids),
        r matches Err(e) ==> homepage_store_failure(e),
{
    let ghost w0 = db.writes();
    let ghost r0 = db.reads();
    let snapshot_id = match db.insert_page_snapshot(&homepage_snapshot()) {
        Ok(id) => id,
        Err(e) => return Err(e),
    };
    let keywords = match record_keywords(db, data) {
        Ok(n) => n,
        Err(e) => return Err(e),
    };
    let ghost w1 = db.writes();
    assert(w1 == w0.push(homepage_snapshot_write()) + homepage_keyword_writes(*data));
    let ghost mut singer_ids: Seq<i64> = Seq::empty();
    let mut items: Vec<PageItem> = Vec::new();
    let mut i: usize = 0;
    while i < data.hot_singers.len()
        invariant
            i <= data.hot_singers@.len(),
            items@.len() == i,
            singer_ids.len() == i,
            db.path() == old(db).path(),
            db.writes() == w1 + data.hot_singers@.take(i as int).map_values(|s: HotSinger| hot_singer_write(s)),
            db.reads() == r0 + hot_singer_lookups(data.hot_singers@.take(i as int)),
            forall|j: int| 0 <= j < i ==> (INSERT_PAGE_ITEM@, page_item_params_spec(#[trigger] items@[j]))
                == hot_singer_position(snapshot_id, singer_ids[j], data.hot_singers@[j]),
        decreases data.hot_singers.len() - i,
    {
        let item = &data.hot_singers[i];
        let singer_id = match db.insert_singer(&hot_singer_record(item)) {
            Ok(id) => id,
            Err(e) => return Err(e),
        };
        assert(data.hot_singers@.take(i + 1) =~= data.hot_singers@.take(i as int).push(*item));
        assert(data.hot_singers@.take(i + 1).map_values(|s: HotSinger| hot_singer_write(s))
            =~= data.hot_singers@.take(i as int).map_values(|s: HotSinger| hot_singer_write(s)).push(hot_singer_write(*item)));
        assert(hot_singer_lookups(data.hot_singers@.take(i + 1)) =~= hot_singer_lookups(data.hot_singers@.take(i as int)).push(
            with_text(SINGER_ID_BY_NAME@, item.name@)));
        items.push(hot_singer_item(snapshot_id, singer_id, item));
        proof {
            singer_ids = singer_ids.push(singer_id);
        }
        i = i + 1;
    }
    match db.insert_page_items(items.as_slice()) {
        Ok(n) => {
            assert(data.hot_singers@.take(i as int) =~= data.hot_singers@);
            assert(page_item_writes(items@) =~= Seq::new(data.hot_singers@.len(), |k: int| hot_singer_position(snapshot_id, singer_ids[k], data.hot_singers@[k])));
            assert(db.writes() =~= w0 + homepage_writes(*data, snapshot_id, singer_ids));
            Ok(HomepageCounts { latest_searches: keywords.0, hot_keywords: keywords.1, singers: n })
        },
        Err(e) => Err(e),
    }
}

// ---------------------------------------------------------------------
// Ranking pages
// ---------------------------------------------------------------------

/// The snapshot of a crawled ranking page.
pub fn ranking_snapshot(ranking_type: &str, page_number: i32, title: &str) -> (s: PageSnapshot)
    ensures
        s.page_type@ == "ranking"@,
        opt_str_view(s.ranking_type) == Some(ranking_type@),
        s.search_keyword is None,
        s.page_number == page_number,
        s.url is None,
        opt_str_view(s.title) == Some(title@),
{
    PageSnapshot {
        page_type: owned("ranking"),
        ranking_type: Some(owned(ranking_type)),
        search_keyword: None,
        page_number,
        url: None,
        title: Some(owned(title)),
    }
}

/// The singer stored for a singer of a ranking page.
pub fn ranked_singer_record(s: &SingerRank) -> (r: Singer)
    ensures
        r.name@ == s.name@,
        opt_str_view(r.avatar_url) == Some(s.avatar_url@),
        opt_str_view(r.songs_url) == Some(s.songs_url@),
{
    Singer { name: s.name.clone(), avatar_url: Some(s.avatar_url.clone()), songs_url: Some(s.songs_url.clone()) }
}

/// The song stored for a song of a ranking page: what the page shows, with
/// its cover.
pub fn ranked_song_record(s: &SongRank) -> (r: Song)
    ensures
        r.song_id == s.song_id,
        r.title@ == s.title@,
        r.artist@ == s.artist@,
        opt_str_view(r.cover_url) == Some(s.cover_url@),
        r.mp3_url is None,
        r.play_id is None,
        r.lrc is None,
        r.extra_url is None,
{
    Song {
        song_id: s.song_id,
        title: s.title.clone(),
        artist: s.artist.clone(),
        cover_url: Some(s.cover_url.clone()),
        mp3_url: None,
        play_id: None,
        lrc: None,
        extra_url: None,
    }
}

/// The ranking entry of a singer: found again by its name.
pub fn singer_ranking_item(ranking_type: &str, s: &SingerRank) -> (r: RankingItem)
    ensures
        r.ranking_type@ == ranking_type@,
        r.rank == s.rank,
        r.item_id is None,
        opt_str_view(r.item_name) == Some(s.name@),
        r.item_type@ == "singer"@,
{
    RankingItem {
        ranking_type: owned(ranking_type),
        rank: s.rank,
        item_id: None,
        item_name: Some(s.name.clone()),
        item_type: owned("singer"),
    }
}

/// The ranking entry of a song: found again by its site id.
pub fn song_ranking_item(ranking_type: &str, s: &SongRank) -> (r: RankingItem)
    ensures
        r.ranking_type@ == ranking_type@,
        r.rank == s.rank,
        r.item_id == Some(s.song_id),
        r.item_name is None,
        r.item_type@ == "song"@,
{
    RankingItem {
        ranking_type: owned(ranking_type),
        rank: s.rank,
        item_id: Some(s.song_id),
        item_name: None,
        item_type: owned("song"),
    }
}

/// The position of a singer on a ranking snapshot; with `detailed`, its
/// avatar and songs page as extra data.
pub fn ranked_singer_item(snapshot_id: i64, singer_id: i64, s: &SingerRank, detailed: bool) -> (p: PageItem)
    ensures
        p.page_snapshot_id == snapshot_id,
        p.item_type@ == "singer"@,
        p.item_id == Some(singer_id),
        p.position == s.rank,
        opt_str_view(p.extra_data) == if detailed {
            Some(json_object_of(seq![("avatar_url"@, s.avatar_url@), ("songs_url"@, s.songs_url@)]))
        } else {
            None
        },
{
    PageItem {
        page_snapshot_id: snapshot_id,
        item_type: owned("singer"),
        item_id: Some(singer_id),
        position: s.rank,
        extra_data: if detailed {
            Some(json_two("avatar_url", &s.avatar_url, "songs_url", &s.songs_url))
        } else {
            None
        },
    }
}

/// The position of a song on a ranking snapshot; with `detailed`, its
/// title, artist and cover as extra data.
pub fn ranked_song_item(snapshot_id: i64, song_db_id: i64, s: &SongRank, detailed: bool) -> (p: PageItem)
    ensures
        p.page_snapshot_id == snapshot_id,
        p.item_type@ == "song"@,
        p.item_id == Some(song_db_id),
        p.position == s.rank,
        opt_str_view(p.extra_data) == if detailed {
            Some(json_object_of(seq![("title"@, s.title@), ("artist"@, s.artist@), ("cover_url"@, s.cover_url@)]))
        } else {
            None
        },
{
    PageItem {
        page_snapshot_id: snapshot_id,
        item_type: owned("song"),
        item_id: Some(song_db_id),
        position: s.rank,
        extra_data: if detailed {
            Some(json_three("title", &s.title, "artist", &s.artist, "cover_url", &s.cover_url))
        } else {
            None
        },
    }
}

/// What storing a ranking page wrote: singers, songs and ranking entries.
pub struct RankingCounts {
    pub singers: usize,
    pub songs: usize,
    pub rankings: usize,
}

/// Whether `e` is an error of storing a ranking page.
pub open spec fn ranking_store_failure(e: DbError) -> bool {
    ||| has_context(e, CTX_CONNECT)
    ||| has_context(e, CTX_INSERT_SNAPSHOT)
    ||| has_context(e, CTX_INSERT_SINGER)
    ||| has_context(e, CTX_SINGER_ID)
    ||| has_context(e, CTX_INSERT_SONG)
    ||| has_context(e, CTX_SONG_ID)
    ||| has_context(e, CTX_INSERT_RANKING)
    ||| has_context(e, CTX_INSERT_PAGE_ITEM)
}

/// The snapshot that storing page `page_number` of `ranking_type` writes,
/// when the page is titled `title`.
pub open spec fn ranking_snapshot_write(ranking_type: Seq<char>, page_number: i32, title: Seq<char>) -> Statement {
    (INSERT_SNAPSHOT@, seq![
        SqlParamView::Text("ranking"@),
        SqlParamView::Text(ranking_type),
        SqlParamView::Null,
        SqlParamView::Integer(page_number as i64),
        SqlParamView::Null,
        SqlParamView::Text(title),
    ])
}

/// The singer that storing a ranking page writes for a singer it lists.
pub open spec fn ranked_singer_write(s: SingerRank) -> Statement {
    (INSERT_SINGER@, seq![SqlParamView::Text(s.name@), SqlParamView::Text(s.avatar_url@), SqlParamView::Text(s.songs_url@)])
}

/// The ranking entry written for a singer, linked to singer row
/// `singer_link` when the lookup by name found one.
pub open spec fn singer_entry_write(ranking_type: Seq<char>, s: SingerRank, singer_link: Option<i64>) -> Statement {
    (INSERT_RANKING@, seq![
        SqlParamView::Text(ranking_type),
        SqlParamView::Integer(s.rank as i64),
        SqlParamView::Null,
        opt_int_param(singer_link),
    ])
}

/// The song that storing a ranking page writes for a song it lists.
pub open spec fn ranked_song_write(s: SongRank) -> Statement {
    (INSERT_SONG@, seq![
        SqlParamView::Integer(s.song_id),
        SqlParamView::Text(s.title@),
        SqlParamView::Text(s.artist@),
        SqlParamView::Text(s.cover_url@),
        SqlParamView::Null,
        SqlParamView::Null,
        SqlParamView::Null,
        SqlParamView::Null,
    ])
}

/// The ranking entry written for a song, linked to song row `song_link`
/// when the lookup by site id found one.
pub open spec fn song_entry_write(ranking_type: Seq<char>, s: SongRank, song_link: Option<i64>) -> Statement {
    (INSERT_RANKING@, seq![
        SqlParamView::Text(ranking_type),
        SqlParamView::Integer(s.rank as i64),
        opt_int_param(song_link),
        SqlParamView::Null,
    ])
}

/// The singers of a ranking page and their entries, in order: each singer,
/// then its entry with its link.
pub open spec fn singer_entries(ranking_type: Seq<char>, singers: Seq<SingerRank>, links: Seq<Option<i64>>) -> Seq<Statement>
    decreases singers.len(),
{
    if singers.len() == 0 {
        Seq::empty()
    } else {
        singer_entries(ranking_type, singers.drop_last(), links.drop_last())
            + seq![ranked_singer_write(singers.last()), singer_entry_write(ranking_type, singers.last(), links.last())]
    }
}

/// The songs of a ranking page and their entries, in order: each song, then
/// its entry with its link.
pub open spec fn song_entries(ranking_type: Seq<char>, songs: Seq<SongRank>, links: Seq<Option<i64>>) -> Seq<Statement>
    decreases songs.len(),
{
    if songs.len() == 0 {
        Seq::empty()
    } else {
        song_entries(ranking_type, songs.drop_last(), links.drop_last())
            + seq![ranked_song_write(songs.last()), song_entry_write(ranking_type, songs.last(), links.last())]
    }
}

/// The lookups of storing the singers of a ranking page: for each, the row
/// id of the singer stored, then that of the singer its entry names.
pub open spec fn singer_entry_lookups(singers: Seq<SingerRank>) -> Seq<Statement>
    decreases singers.len(),
{
    if singers.len() == 0 {
        Seq::empty()
    } else {
        singer_entry_lookups(singers.drop_last()) + seq![
            with_text(SINGER_ID_BY_NAME@, singers.last().name@),
            with_text(SINGER_ID_BY_NAME@, singers.last().name@),
        ]
    }
}

/// The lookups of storing the songs of a ranking page: for each, the row
/// id of the song stored, then that of the song its entry names.
pub open spec fn song_entry_lookups(songs: Seq<SongRank>) -> Seq<Statement>
    decreases songs.len(),
{
    if songs.len() == 0 {
        Seq::empty()
    } else {
        song_entry_lookups(songs.drop_last()) + seq![
            with_int(SONG_ID_BY_SONG_ID@, songs.last().song_id),
            with_int(SONG_ID_BY_SONG_ID@, songs.last().song_id),
        ]
    }
}

/// The extra data of a singer's position on a ranking page.
pub open spec fn singer_extra(s: SingerRank, detailed: bool) -> Option<Seq<char>> {
    if detailed {
        Some(json_object_of(seq![("avatar_url"@, s.avatar_url@), ("songs_url"@, s.songs_url@)]))
    } else {
        None
    }
}

/// The extra data of a song's position on a ranking page.
pub open spec fn song_extra(s: SongRank, detailed: bool) -> Option<Seq<char>> {
    if detailed {
        Some(json_object_of(seq![("title"@, s.title@), ("artist"@, s.artist@), ("cover_url"@, s.cover_url@)]))
    } else {
        None
    }
}

/// The position written for a singer stored as row `singer_id` on ranking
/// snapshot `snapshot_id`.
pub open spec fn singer_position(snapshot_id: i64, singer_id: i64, s: SingerRank, detailed: bool) -> Statement {
    (INSERT_PAGE_ITEM@, seq![
        SqlParamView::Integer(snapshot_id),
        SqlParamView::Text("singer"@),
        SqlParamView::Integer(singer_id),
        SqlParamView::Integer(s.rank as i64),
        opt_text_param(singer_extra(s, detailed)),
    ])
}

/// The position written for a song stored as row `song_db_id` on ranking
/// snapshot `snapshot_id`.
pub open spec fn song_position(snapshot_id: i64, song_db_id: i64, s: SongRank, detailed: bool) -> Statement {
    (INSERT_PAGE_ITEM@, seq![
        SqlParamView::Integer(snapshot_id),
        SqlParamView::Text("song"@),
        SqlParamView::Integer(song_db_id),
        SqlParamView::Integer(s.rank as i64),
        opt_text_param(song_extra(s, detailed)),
    ])
}

/// Everything storing a ranking page writes, in order, given the row id of
/// its snapshot, the row ids of what it lists and the links of their
/// entries: the snapshot; then, for a page of singers, each singer and its
/// entry, else each song and its entry; then the position of each.
pub open spec fn ranking_page_writes(ranking_type: Seq<char>, data: RankingPageData, page_number: i32, detailed: bool, snapshot_id: i64, ids: Seq<i64>, links: Seq<Option<i64>>) -> Seq<Statement> {
    seq![ranking_snapshot_write(ranking_type, page_number, data.ranking_name@)] + if data.singers@.len() > 0 {
        singer_entries(ranking_type, data.singers@, links)
            + Seq::new(data.singers@.len(), |i: int| singer_position(snapshot_id, ids[i], data.singers@[i], detailed))
    } else {
        song_entries(ranking_type, data.songs@, links)
            + Seq::new(data.songs@.len(), |i: int| song_position(snapshot_id, ids[i], data.songs@[i], detailed))
    }
}

/// The lookups of storing a ranking page.
pub open spec fn ranking_page_lookups(data: RankingPageData) -> Seq<Statement> {
    if data.singers@.len() > 0 {
        singer_entry_lookups(data.singers@)
    } else {
        song_entry_lookups(data.songs@)
    }
}

fn record_ranked_singers(db: &mut Database, ranking_type: &str, snapshot_id: i64, singers: &Vec<SingerRank>, detailed: bool) -> (r: Result<(Vec<PageItem>, Ghost<Seq<i64>>, Ghost<Seq<Option<i64>>>), DbError>)
    ensures
        final(db).path() == old(db).path(),
        r matches Ok((items, ids, links)) ==> {
            &&& items@.len() == singers@.len()
            &&& ids@.len() == singers@.len()
            &&& links@.len() == singers@.len()
            &&& final(db).reads() == old(db).reads() + singer_entry_lookups(singers@)
            &&& final(db).writes() == old(db).writes() + singer_entries(ranking_type@, singers@, links@)
            &&& forall|j: int| 0 <= j < singers@.len() ==> (INSERT_PAGE_ITEM@, page_item_params_spec(#[trigger] items@[j]))
                == singer_position(snapshot_id, ids@[j], singers@[j], detailed)
        },
        r matches Err(e) ==> ranking_store_failure(e),
{
    let ghost w0 = db.writes();
    let ghost r0 = db.reads();
    let ghost mut ids: Seq<i64> = Seq::empty();
    let ghost mut links: Seq<Option<i64>> = Seq::empty();
    let mut items: Vec<PageItem> = Vec::new();
    let mut i: usize = 0;
    while i < singers.len()
        invariant
            i <= singers@.len(),
            items@.len() == i,
            ids.len() == i,
            links.len() == i,
            db.path() == old(db).path(),
            db.writes() == w0 + singer_entries(ranking_type@, singers@.take(i as int), links),
            db.reads() == r0 + singer_entry_lookups(singers@.take(i as int)),
            forall|j: int| 0 <= j < i ==> (INSERT_PAGE_ITEM@, page_item_params_spec(#[trigger] items@[j]))
                == singer_position(snapshot_id, ids[j], singers@[j], detailed),
        decreases singers.len() - i,
    {
        let s = &singers[i];
        let rec = ranked_singer_record(s);
        assert(singer_params_spec(rec) =~= ranked_singer_write(*s).1);
        let singer_id = match db.insert_singer(&rec) {
            Ok(id) => id,
            Err(e) => return Err(e),
        };
        let ghost w2 = db.writes();
        let entry = singer_ranking_item(ranking_type, s);
        match db.insert_ranking_item(&entry) {
            Ok(_) => {},
            Err(e) => return Err(e),
        }
        let ghost (song_link, singer_link) = choose|song_link: Option<i64>, singer_link: Option<i64>|
            ranking_links(entry, song_link, singer_link) && db.writes() == w2.push(
                (INSERT_RANKING@, ranking_params_spec(entry, song_link, singer_link)),
            );
        assert(ranking_params_spec(entry, song_link, singer_link) =~= singer_entry_write(ranking_type@, *s, singer_link).1);
        assert(singers@.take(i + 1).drop_last() =~= singers@.take(i as int));
        assert(links.push(singer_link).drop_last() =~= links);
        assert(db.writes() =~= w0 + singer_entries(ranking_type@, singers@.take(i + 1), links.push(singer_link)));
        assert("singer"@ != "song"@) by {
            reveal_strlit("singer");
            reveal_strlit("song");
            assert("singer"@.len() != "song"@.len());
        }
        assert(ranking_ref_spec(entry.item_type@, entry.item_id, opt_str_view(entry.item_name)) == (None::<i64>, Some(s.name@)));
        assert(db.reads() =~= r0 + singer_entry_lookups(singers@.take(i + 1)));
        let item = ranked_singer_item(snapshot_id, singer_id, s, detailed);
        assert(page_item_params_spec(item) =~= singer_position(snapshot_id, singer_id, *s, detailed).1);
        items.push(item);
        proof {
            ids = ids.push(singer_id);
            links = links.push(singer_link);
        }
        i = i + 1;
    }
    assert(singers@.take(i as int) =~= singers@);
    Ok((items, Ghost(ids), Ghost(links)))
}

fn record_ranked_songs(db: &mut Database, ranking_type: &str, snapshot_id: i64, songs: &Vec<SongRank>, detailed: bool) -> (r: Result<(Vec<PageItem>, Ghost<Seq<i64>>, Ghost<Seq<Option<i64>>>), DbError>)
    ensures
        final(db).path() == old(db).path(),
        r matches Ok((items, ids, links)) ==> {
            &&& items@.len() == songs@.len()
            &&& ids@.len() == songs@.len()
            &&& links@.len() == songs@.len()
            &&& final(db).reads() == old(db).reads() + song_entry_lookups(songs@)
            &&& final(db).writes() == old(db).writes() + song_entries(ranking_type@, songs@, links@)
            &&& forall|j: int| 0 <= j < songs@.len() ==> (INSERT_PAGE_ITEM@, page_item_params_spec(#[trigger] items@[j]))
                == song_position(snapshot_id, ids@[j], songs@[j], detailed)
        },
        r matches Err(e) ==> ranking_store_failure(e),
{
    let ghost w0 = db.writes();
    let ghost r0 = db.reads();
    let ghost mut ids: Seq<i64> = Seq::empty();
    let ghost mut links: Seq<Option<i64>> = Seq::empty();
    let mut items: Vec<PageItem> = Vec::new();
    let mut i: usize = 0;
    while i < songs.len()
        invariant
            i <= songs@.len(),
            items@.len() == i,
            ids.len() == i,
            links.len() == i,
            db.path() == old(db).path(),
            db.writes() == w0 + song_entries(ranking_type@, songs@.take(i as int), links),
            db.reads() == r0 + song_entry_lookups(songs@.take(i as int)),
            forall|j: int| 0 <= j < i ==> (INSERT_PAGE_ITEM@, page_item_params_spec(#[trigger] items@[j]))
                == song_position(snapshot_id, ids[j], songs@[j], detailed),
        decreases songs.len() - i,
    {
        let s = &songs[i];
        let rec = ranked_song_record(s);
        assert(song_params_spec(rec) =~= ranked_song_write(*s).1);
        let song_db_id = match db.insert_song(&rec) {
            Ok(id) => id,
            Err(e) => return Err(e),
        };
        let ghost w2 = db.writes();
        let entry = song_ranking_item(ranking_type, s);
        match db.insert_ranking_item(&entry) {
            Ok(_) => {},
            Err(e) => return Err(e),
        }
        let ghost (song_link, singer_link) = choose|song_link: Option<i64>, singer_link: Option<i64>|
            ranking_links(entry, song_link, singer_link) && db.writes() == w2.push(
                (INSERT_RANKING@, ranking_params_spec(entry, song_link, singer_link)),
            );
        assert(ranking_params_spec(entry, song_link, singer_link) =~= song_entry_write(ranking_type@, *s, song_link).1);
        assert(songs@.take(i + 1).drop_last() =~= songs@.take(i as int));
        assert(links.push(song_link).drop_last() =~= links);
        assert(db.writes() =~= w0 + song_entries(ranking_type@, songs@.take(i + 1), links.push(song_link)));
        assert(db.reads() =~= r0 + song_entry_lookups(songs@.take(i + 1)));
        let item = ranked_song_item(snapshot_id, song_db_id, s, detailed);
        assert(page_item_params_spec(item) =~= song_position(snapshot_id, song_db_id, *s, detailed).1);
        items.push(item);
        proof {
            ids = ids.push(song_db_id);
            links = links.push(song_link);
        }
        i = i + 1;
    }
    assert(songs@.take(i as int) =~= songs@);
    Ok((items, Ghost(ids), Ghost(links)))
}

/// Stores a crawled ranking page as page `page_number` of `ranking_type`:
/// its snapshot, then either its singers (when it lists singers) or its
/// songs, each with its ranking entry, and then the position of each on the
/// page. With `detailed`, each position also carries extra data.
pub fn record_ranking_page(db: &mut Database, ranking_type: &str, data: &RankingPageData, page_number: i32, detailed: bool) -> (r: Result<RankingCounts, DbError>)
    ensures
        final(db).path() == old(db).path(),
        r matches Ok(c) ==> if data.singers@.len() > 0 {
            &&& c.singers == data.singers@.len()
            &&& c.songs == 0
            &&& c.rankings == data.singers@.len()
        } else {
            &&& c.singers == 0
            &&& c.songs == data.songs@.len()
            &&& c.rankings == data.songs@.len()
        },
        r is Ok ==> final(db).reads() == old(db).reads() + ranking_page_lookups(*data)
            && exists|snapshot_id: i64, ids: Seq<i64>, links: Seq<Option<i64>>| {
                let n = if data.singers@.len() > 0 { data.singers@.len() } else { data.songs@.len() };
                &&& ids.len() == n
                &&& links.len() == n
                &&& final(db).writes() == old(db).writes()
                    + #[trigger] ranking_page_writes(ranking_type@, *data, page_number, detailed, snapshot_id, ids, links)
            },
        r matches Err(e) ==> ranking_store_failure(e),
{
    let ghost w0 = db.writes();
    let ghost r0 = db.reads();
    let snapshot = ranking_snapshot(ranking_type, page_number, data.ranking_name.as_str());
    assert(snapshot_params_spec(snapshot) =~= ranking_snapshot_write(ranking_type@, page_number, data.ranking_name@).1);
    let snapshot_id = match db.insert_page_snapshot(&snapshot) {
        Ok(id) => id,
        Err(e) => return Err(e),
    };
    let ghost w1 = db.writes();
    let on_singers = data.singers.len() > 0;
    let items = if on_singers {
        record_ranked_singers(db, ranking_type, snapshot_id, &data.singers, detailed)
    } else {
        record_ranked_songs(db, ranking_type, snapshot_id, &data.songs, detailed)
    };
    let (items, ids, links) = match items {
        Ok(r) => r,
        Err(e) => return Err(e),
    };
    let n = match db.insert_page_items(items.as_slice()) {
        Ok(n) => n,
        Err(e) => return Err(e),
    };
    if on_singers {
        assert(page_item_writes(items@) =~= Seq::new(data.singers@.len(), |k: int| singer_position(snapshot_id, ids@[k], data.singers@[k], detailed)));
        assert(db.writes() =~= w0 + ranking_page_writes(ranking_type@, *data, page_number, detailed, snapshot_id, ids@, links@));
        Ok(RankingCounts { singers: n, songs: 0, rankings: n })
    } else {
        assert(page_item_writes(items@) =~= Seq::new(data.songs@.len(), |k: int| song_position(snapshot_id, ids@[k], data.songs@[k], detailed)));
        assert(db.writes() =~= w0 + ranking_page_writes(ranking_type@, *data, page_number, detailed, snapshot_id, ids@, links@));
        Ok(RankingCounts { singers: 0, songs: n, rankings: n })
    }
}


// ---------------------------------------------------------------------
// Searches
// ---------------------------------------------------------------------

/// The start of the title recorded for a search.
pub const SEARCH_TITLE_PREFIX: &'static str = "搜索: ";

/// The snapshot of a search for `keyword`, whose page named the keyword
/// `found_keyword`.
pub fn search_snapshot(keyword: &str, found_keyword: &str) -> (s: PageSnapshot)
    ensures
        s.page_type@ == "search"@,
        s.ranking_type is None,
        opt_str_view(s.search_keyword) == Some(found_keyword@),
        s.page_number == 1,
        opt_str_view(s.url) == Some(search_url_spec(keyword@)),
        opt_str_view(s.title) == Some(SEARCH_TITLE_PREFIX@ + found_keyword@),
{
    PageSnapshot {
        page_type: owned("search"),
        ranking_type: None,
        search_keyword: Some(owned(found_keyword)),
        page_number: 1,
        url: Some(concat("https://www.gequke.com/ss/", keyword)),
        title: Some(concat(SEARCH_TITLE_PREFIX, found_keyword)),
    }
}

/// The song stored for a search result: its id, title and artist.
pub fn search_song_record(s: &SongSearchResult) -> (r: Song)
    ensures
        r.song_id == s.song_id,
        r.title@ == s.title@,
        r.artist@ == s.artist@,
        r.cover_url is None,
        r.mp3_url is None,
        r.play_id is None,
        r.lrc is None,
        r.extra_url is None,
{
    Song {
        song_id: s.song_id,
        title: s.title.clone(),
        artist: s.artist.clone(),
        cover_url: None,
        mp3_url: None,
        play_id: None,
        lrc: None,
        extra_url: None,
    }
}

/// The position of a search result on the search snapshot, with its song
/// page as extra data.
pub fn search_song_item(snapshot_id: i64, song_db_id: i64, s: &SongSearchResult) -> (p: PageItem)
    ensures
        p.page_snapshot_id == snapshot_id,
        p.item_type@ == "song"@,
        p.item_id == Some(song_db_id),
        p.position == s.position,
        opt_str_view(p.extra_data) == Some(json_object_of(seq![("song_url"@, s.song_url@)])),
{
    PageItem {
        page_snapshot_id: snapshot_id,
        item_type: owned("song"),
        item_id: Some(song_db_id),
        position: s.position,
        extra_data: Some(json_one("song_url", &s.song_url)),
    }
}

/// The snapshot that storing a search for `keyword` writes, when its page
/// named the keyword `found`.
pub open spec fn search_snapshot_write(keyword: Seq<char>, found: Seq<char>) -> Statement {
    (INSERT_SNAPSHOT@, seq![
        SqlParamView::Text("search"@),
        SqlParamView::Null,
        SqlParamView::Text(found),
        SqlParamView::Integer(1),
        SqlParamView::Text(search_url_spec(keyword)),
        SqlParamView::Text(SEARCH_TITLE_PREFIX@ + found),
    ])
}

/// The song that storing a search writes for a result.
pub open spec fn search_song_write(s: SongSearchResult) -> Statement {
    (INSERT_SONG@, seq![
        SqlParamView::Integer(s.song_id),
        SqlParamView::Text(s.title@),
        SqlParamView::Text(s.artist@),
        SqlParamView::Null,
        SqlParamView::Null,
        SqlParamView::Null,
        SqlParamView::Null,
        SqlParamView::Null,
    ])
}

/// The position that storing a search writes for a result stored as song
/// row `song_db_id` on snapshot `snapshot_id`.
pub open spec fn search_song_position(snapshot_id: i64, song_db_id: i64, s: SongSearchResult) -> Statement {
    (INSERT_PAGE_ITEM@, seq![
        SqlParamView::Integer(snapshot_id),
        SqlParamView::Text("song"@),
        SqlParamView::Integer(song_db_id),
        SqlParamView::Integer(s.position as i64),
        SqlParamView::Text(json_object_of(seq![("song_url"@, s.song_url@)])),
    ])
}

/// Everything storing a search writes, in order, given the row id of its
/// snapshot and those of its songs: the snapshot, each song, then the
/// position of each song.
pub open spec fn search_writes(keyword: Seq<char>, data: SearchResult, snapshot_id: i64, song_ids: Seq<i64>) -> Seq<Statement> {
    seq![search_snapshot_write(keyword, data.keyword@)]
        + data.songs@.map_values(|s: SongSearchResult| search_song_write(s))
        + Seq::new(data.songs@.len(), |i: int| search_song_position(snapshot_id, song_ids[i], data.songs@[i]))
}

/// The lookup of the row id of each song stored by site id.
pub open spec fn song_id_lookups(songs: Seq<SongSearchResult>) -> Seq<Statement> {
    songs.map_values(|s: SongSearchResult| with_int(SONG_ID_BY_SONG_ID@, s.song_id))
}

/// Stores a search for `keyword`: its snapshot, each song found, and the
/// position of each. Returns the number of songs stored.
pub fn record_search(db: &mut Database, keyword: &str, data: &SearchResult) -> (r: Result<usize, DbError>)
    ensures
        final(db).path() == old(db).path(),
        r matches Ok(n) ==> n == data.songs@.len()
            && final(db).reads() == old(db).reads() + song_id_lookups(data.songs@)
            && exists|snapshot_id: i64, song_ids: Seq<i64>|
                song_ids.len() == n && final(db).writes() == old(db).writes()
                    + search_writes(keyword@, *data, snapshot_id, song_ids),
        r matches Err(e) ==> has_context(e, CTX_CONNECT) || has_context(e, CTX_INSERT_SNAPSHOT)
            || has_context(e, CTX_INSERT_SONG) || has_context(e, CTX_SONG_ID)
            || has_context(e, CTX_INSERT_PAGE_ITEM),
{
    let ghost w0 = db.writes();
    let ghost r0 = db.reads();
    let snapshot_id = match db.insert_page_snapshot(&search_snapshot(keyword, data.keyword.as_str())) {
        Ok(id) => id,
        Err(e) => return Err(e),
    };
    let ghost w1 = db.writes();
    assert(w1 == w0.push(search_snapshot_write(keyword@, data.keyword@)));
    let ghost mut song_ids: Seq<i64> = Seq::empty();
    let mut items: Vec<PageItem> = Vec::new();
    let mut i: usize = 0;
    while i < data.songs.len()
        invariant
            i <= data.songs@.len(),
            items@.len() == i,
            song_ids.len() == i,
            db.path() == old(db).path(),
            db.writes() == w1 + data.songs@.take(i as int).map_values(|s: SongSearchResult| search_song_write(s)),
            db.reads() == r0 + song_id_lookups(data.songs@.take(i as int)),
            forall|j: int| 0 <= j < i ==> (INSERT_PAGE_ITEM@, page_item_params_spec(#[trigger] items@[j]))
                == search_song_position(snapshot_id, song_ids[j], data.songs@[j]),
        decreases data.songs.len() - i,
    {
        let song = &data.songs[i];
        let song_db_id = match db.insert_song(&search_song_record(song)) {
            Ok(id) => id,
            Err(e) => return Err(e),
        };
        assert(data.songs@.take(i + 1) =~= data.songs@.take(i as int).push(*song));
        assert(data.songs@.take(i + 1).map_values(|s: SongSearchResult| search_song_write(s))
            =~= data.songs@.take(i as int).map_values(|s: SongSearchResult| search_song_write(s)).push(search_song_write(*song)));
        assert(song_id_lookups(data.songs@.take(i + 1)) =~= song_id_lookups(data.songs@.take(i as int)).push(
            with_int(SONG_ID_BY_SONG_ID@, song.song_id)));
        items.push(search_song_item(snapshot_id, song_db_id, song));
        proof {
            song_ids = song_ids.push(song_db_id);
        }
        i = i + 1;
    }
    let ghost w2 = db.writes();
    match db.insert_page_items(items.as_slice()) {
        Ok(n) => {
            assert(data.songs@.take(i as int) =~= data.songs@);
            assert(page_item_writes(items@) =~= Seq::new(data.songs@.len(), |k: int| search_song_position(snapshot_id, song_ids[k], data.songs@[k])));
            assert(db.writes() =~= w0 + search_writes(keyword@, *data, snapshot_id, song_ids));
            Ok(n)
        },
        Err(e) => Err(e),
    }
}

// ---------------------------------------------------------------------
// Downloads
// ---------------------------------------------------------------------

/// The song stored for a downloaded song.
pub fn downloaded_song_record(info: &DownloadSongInfo) -> (r: Song)
    ensures
        r.song_id == info.song_id,
        r.title@ == info.title@,
        r.artist@ == info.artist@,
        opt_str_view(r.cover_url) == opt_str_view(info.cover_url),
        r.mp3_url is None,
        opt_str_view(r.play_id) == opt_str_view(info.play_id),
        r.lrc is None,
        r.extra_url is None,
{
    Song {
        song_id: info.song_id,
        title: info.title.clone(),
        artist: info.artist.clone(),
        cover_url: info.cover_url.clone(),
        mp3_url: None,
        play_id: info.play_id.clone(),
        lrc: None,
        extra_url: None,
    }
}

/// The download record of song `song_id` saved at `file_path`.
pub fn download_record(song_id: i64, file_path: &str, file_size: Option<i64>) -> (r: DownloadRecord)
    ensures
        r.song_id == song_id,
        r.file_path@ == file_path@,
        r.file_size == file_size,
        r.downloaded_at is None,
{
    DownloadRecord { song_id, file_path: owned(file_path), file_size, downloaded_at: None }
}

/// The song that storing a download writes for what the download learned.
pub open spec fn downloaded_song_write(info: DownloadSongInfo) -> Statement {
    (INSERT_SONG@, seq![
        SqlParamView::Integer(info.song_id),
        SqlParamView::Text(info.title@),
        SqlParamView::Text(info.artist@),
        opt_text_param(opt_str_view(info.cover_url)),
        SqlParamView::Null,
        opt_text_param(opt_str_view(info.play_id)),
        SqlParamView::Null,
        SqlParamView::Null,
    ])
}

/// The record that storing a download file writes.
pub open spec fn download_file_write(song_id: i64, file_path: Seq<char>, file_size: Option<i64>) -> Statement {
    (INSERT_DOWNLOAD@, seq![SqlParamView::Integer(song_id), SqlParamView::Text(file_path), opt_int_param(file_size)])
}

/// Stores the song of a download, when the download learned it. Returns
/// whether there was one to store.
pub fn record_downloaded_song(db: &mut Database, result: &DownloadResult) -> (r: Result<bool, DbError>)
    ensures
        final(db).path() == old(db).path(),
        r matches Ok(stored) ==> stored == result.song_info is Some,
        r is Ok ==> match result.song_info {
            Some(info) => final(db).writes() == old(db).writes().push(downloaded_song_write(info))
                && final(db).reads() == old(db).reads().push(with_int(SONG_ID_BY_SONG_ID@, info.song_id)),
            None => final(db).writes() == old(db).writes() && final(db).reads() == old(db).reads(),
        },
        result.song_info is None ==> r is Ok,
        r matches Err(e) ==> has_context(e, CTX_CONNECT) || has_context(e, CTX_INSERT_SONG)
            || has_context(e, CTX_SONG_ID),
{
    match &result.song_info {
        Some(info) => {
            let rec = downloaded_song_record(info);
            assert(song_params_spec(rec) =~= downloaded_song_write(*info).1);
            match db.insert_song(&rec) {
                Ok(_) => Ok(true),
                Err(e) => Err(e),
            }
        },
        None => Ok(false),
    }
}

/// Stores the record of song `song_id` downloaded to `file_path` and
/// returns its row id.
pub fn record_download_file(db: &mut Database, song_id: i64, file_path: &str, file_size: Option<i64>) -> (r: Result<i64, DbError>)
    ensures
        final(db).path() == old(db).path(),
        final(db).reads() == old(db).reads(),
        r is Ok ==> final(db).writes() == old(db).writes().push(download_file_write(song_id, file_path@, file_size)),
        r matches Err(e) ==> sqlite_failure(e, CTX_CONNECT) || sqlite_failure(e, CTX_INSERT_DOWNLOAD),
{
    let rec = download_record(song_id, file_path, file_size);
    assert(download_params_spec(rec) =~= download_file_write(song_id, file_path@, file_size).1);
    db.insert_download_record(&rec)
}

} // verus!
