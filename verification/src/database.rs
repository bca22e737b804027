//! The SQLite store: schema, insertions and queries.
//!
//! Every operation opens its own connection to the database file. The
//! statements and their parameters are fixed by
//! verified code; what the database answers is read back into typed rows.

use vstd::prelude::*;
use crate::models::{DownloadRecord, PageItem, PageSnapshot, RankingItem, SearchKeyword, Singer, Song};
use crate::pattern::opt_str_view;
use crate::queries::{
    ALL_DOWNLOADS, ALL_SINGERS, ALL_SONGS, COUNT_DOWNLOADS, COUNT_PAGE_ITEMS,
    COUNT_PAGE_SNAPSHOTS, COUNT_RANKINGS, COUNT_SEARCH_KEYWORDS, COUNT_SINGERS, COUNT_SONGS,
    Query, SINGER_APPEARANCES, SINGER_APPEARANCES_ON_HOMEPAGE, SINGER_APPEARANCES_ON_RANKING,
    SINGER_BY_NAME, SONG_APPEARANCES, SONG_APPEARANCES_ON_HOMEPAGE, SONG_APPEARANCES_ON_RANKING,
    SONG_BY_SONG_ID, filter_params, int_query, opt_ref_view, plain_query, rankings_query,
    rankings_sql, snapshots_query, snapshots_sql, text_query, top_singers_query, top_singers_sql,
    top_songs_query, top_songs_sql, window_params,
};
use crate::rows::{
    DownloadRow, RankingRow, RowRecord, SingerRow, SnapshotRow, SongRow, TopSingerRow,
    TopSongRow, all_width, first_i64, read_first, read_rows,
};
use crate::sqlite::{
    SqlParam, SqlParamView, SqlValue, error_text, execute, execute_batch, last_insert_rowid,
    open_connection, params_view, prepare_statement, query_rows,
};
use crate::text::{owned, str_eq};

verus! {

/// What went wrong with the database.
pub enum DbErrorKind {
    /// An error reported by SQLite or `rusqlite`, with its message.
    Sqlite(String),
    /// A query that must return a row returned none.
    NoRows,
    /// Column `index` does not hold a value of the type read.
    ColumnType { index: usize },
}

/// An error of a database operation, with the step that failed.
pub struct DbError {
    /// The step that failed (none for a query read as is).
    pub context: Option<String>,
    pub kind: DbErrorKind,
}

/// The context of a database error, if any.
pub open spec fn err_context(e: DbError) -> Option<Seq<char>> {
    opt_str_view(e.context)
}

fn sqlite_error(e: rusqlite::Error, context: Option<&str>) -> (r: DbError)
    ensures
        opt_str_view(r.context) == match context {
            Some(c) => Some(c@),
            None => None,
        },
        r.kind is Sqlite,
{
    let message = error_text(&e);
    DbError {
        context: match context {
            Some(c) => Some(owned(c)),
            None => None,
        },
        kind: DbErrorKind::Sqlite(message),
    }
}

fn with_context(e: DbError, context: &str) -> (r: DbError)
    ensures
        opt_str_view(r.context) == Some(context@),
        r.kind == e.kind,
{
    DbError { context: Some(owned(context)), kind: e.kind }
}

// ---------------------------------------------------------------------
// Reading columns
// ---------------------------------------------------------------------

/// An integer column value.
pub open spec fn int_col(v: SqlValue) -> Option<i64> {
    match v {
        SqlValue::Integer(i) => Some(i),
        _ => None,
    }
}

/// An integer column value that fits in an `i32`.
pub open spec fn i32_col(v: SqlValue) -> Option<i32> {
    match v {
        SqlValue::Integer(i) => if i32::MIN <= i <= i32::MAX {
            Some(i as i32)
        } else {
            None
        },
        _ => None,
    }
}

/// A nullable integer column value (`None` when of another type).
pub open spec fn opt_int_col(v: SqlValue) -> Option<Option<i64>> {
    match v {
        SqlValue::Integer(i) => Some(Some(i)),
        SqlValue::Null => Some(None),
        _ => None,
    }
}

/// A text column value.
pub open spec fn text_col(v: SqlValue) -> Option<Seq<char>> {
    match v {
        SqlValue::Text(s) => Some(s@),
        _ => None,
    }
}

/// A nullable text column value (`None` when of another type).
pub open spec fn opt_text_col(v: SqlValue) -> Option<Option<Seq<char>>> {
    match v {
        SqlValue::Text(s) => Some(Some(s@)),
        SqlValue::Null => Some(None),
        _ => None,
    }
}

fn type_error(i: usize) -> (e: DbError)
    ensures
        e.kind == (DbErrorKind::ColumnType { index: i }),
        e.context is None,
{
    DbError { context: None, kind: DbErrorKind::ColumnType { index: i } }
}

/// Reads an integer column.
pub fn col_i64(row: &Vec<SqlValue>, i: usize) -> (r: Result<i64, DbError>)
    requires
        i < row@.len(),
    ensures
        match r {
            Ok(v) => int_col(row@[i as int]) == Some(v),
            Err(e) => int_col(row@[i as int]) is None && e.kind == (DbErrorKind::ColumnType { index: i }) && e.context is None,
        },
{
    match &row[i] {
        SqlValue::Integer(v) => Ok(*v),
        _ => Err(type_error(i)),
    }
}

/// Reads an integer column that must fit in an `i32`.
pub fn col_i32(row: &Vec<SqlValue>, i: usize) -> (r: Result<i32, DbError>)
    requires
        i < row@.len(),
    ensures
        match r {
            Ok(v) => i32_col(row@[i as int]) == Some(v),
            Err(e) => i32_col(row@[i as int]) is None && e.kind == (DbErrorKind::ColumnType { index: i }) && e.context is None,
        },
{
    match &row[i] {
        SqlValue::Integer(v) => if -2147483648 <= *v && *v <= 2147483647 {
            Ok(*v as i32)
        } else {
            Err(type_error(i))
        },
        _ => Err(type_error(i)),
    }
}

/// Reads a nullable integer column.
pub fn col_opt_i64(row: &Vec<SqlValue>, i: usize) -> (r: Result<Option<i64>, DbError>)
    requires
        i < row@.len(),
    ensures
        match r {
            Ok(v) => opt_int_col(row@[i as int]) == Some(v),
            Err(e) => opt_int_col(row@[i as int]) is None && e.kind == (DbErrorKind::ColumnType { index: i }) && e.context is None,
        },
{
    match &row[i] {
        SqlValue::Integer(v) => Ok(Some(*v)),
        SqlValue::Null => Ok(None),
        _ => Err(type_error(i)),
    }
}

/// Reads a text column.
pub fn col_text(row: &Vec<SqlValue>, i: usize) -> (r: Result<String, DbError>)
    requires
        i < row@.len(),
    ensures
        match r {
            Ok(s) => text_col(row@[i as int]) == Some(s@),
            Err(e) => text_col(row@[i as int]) is None && e.kind == (DbErrorKind::ColumnType { index: i }) && e.context is None,
        },
{
    match &row[i] {
        SqlValue::Text(s) => Ok(s.clone()),
        _ => Err(type_error(i)),
    }
}

/// Reads a nullable text column.
pub fn col_opt_text(row: &Vec<SqlValue>, i: usize) -> (r: Result<Option<String>, DbError>)
    requires
        i < row@.len(),
    ensures
        match r {
            Ok(s) => opt_text_col(row@[i as int]) == Some(opt_str_view(s)),
            Err(e) => opt_text_col(row@[i as int]) is None && e.kind == (DbErrorKind::ColumnType { index: i }) && e.context is None,
        },
{
    match &row[i] {
        SqlValue::Text(s) => Ok(Some(s.clone())),
        SqlValue::Null => Ok(None),
        _ => Err(type_error(i)),
    }
}

// ---------------------------------------------------------------------
// Statements
// ---------------------------------------------------------------------

/// The schema: seven tables and their indexes. A ranking keeps one entry
/// per rank and crawl time, and a keyword one entry per source and crawl
/// time.
pub const SCHEMA: &'static str = "CREATE TABLE IF NOT EXISTS singers (id INTEGER PRIMARY KEY AUTOINCREMENT, name TEXT NOT NULL UNIQUE, avatar_url TEXT, songs_url TEXT, created_at TIMESTAMP DEFAULT CURRENT_TIMESTAMP, updated_at TIMESTAMP DEFAULT CURRENT_TIMESTAMP);
CREATE TABLE IF NOT EXISTS songs (id INTEGER PRIMARY KEY AUTOINCREMENT, song_id INTEGER NOT NULL UNIQUE, title TEXT NOT NULL, artist TEXT NOT NULL, cover_url TEXT, mp3_url TEXT, play_id TEXT, lrc TEXT, extra_url TEXT, created_at TIMESTAMP DEFAULT CURRENT_TIMESTAMP, updated_at TIMESTAMP DEFAULT CURRENT_TIMESTAMP);
CREATE TABLE IF NOT EXISTS rankings (id INTEGER PRIMARY KEY AUTOINCREMENT, ranking_type TEXT NOT NULL, rank INTEGER NOT NULL, song_id INTEGER, singer_id INTEGER, page INTEGER DEFAULT 1, crawled_at TIMESTAMP DEFAULT CURRENT_TIMESTAMP, UNIQUE(ranking_type, rank, crawled_at), FOREIGN KEY (song_id) REFERENCES songs(id), FOREIGN KEY (singer_id) REFERENCES singers(id));
CREATE TABLE IF NOT EXISTS search_keywords (id INTEGER PRIMARY KEY AUTOINCREMENT, keyword TEXT NOT NULL, source TEXT NOT NULL, rank INTEGER, crawled_at TIMESTAMP DEFAULT CURRENT_TIMESTAMP, UNIQUE(keyword, source, crawled_at));
CREATE TABLE IF NOT EXISTS downloads (id INTEGER PRIMARY KEY AUTOINCREMENT, song_id INTEGER NOT NULL, file_path TEXT NOT NULL, file_size INTEGER, downloaded_at TIMESTAMP DEFAULT CURRENT_TIMESTAMP, FOREIGN KEY (song_id) REFERENCES songs(id));
CREATE TABLE IF NOT EXISTS page_snapshots (id INTEGER PRIMARY KEY AUTOINCREMENT, page_type TEXT NOT NULL, ranking_type TEXT, search_keyword TEXT, page_number INTEGER DEFAULT 1, url TEXT, title TEXT, crawled_at TIMESTAMP DEFAULT CURRENT_TIMESTAMP);
CREATE TABLE IF NOT EXISTS page_items (id INTEGER PRIMARY KEY AUTOINCREMENT, page_snapshot_id INTEGER NOT NULL, item_type TEXT NOT NULL, item_id INTEGER, position INTEGER DEFAULT 0, extra_data TEXT, FOREIGN KEY (page_snapshot_id) REFERENCES page_snapshots(id));
CREATE INDEX IF NOT EXISTS idx_songs_song_id ON songs(song_id);
CREATE INDEX IF NOT EXISTS idx_songs_artist ON songs(artist);
CREATE INDEX IF NOT EXISTS idx_rankings_type ON rankings(ranking_type);
CREATE INDEX IF NOT EXISTS idx_rankings_rank ON rankings(ranking_type, rank);
CREATE INDEX IF NOT EXISTS idx_singers_name ON singers(name);
CREATE INDEX IF NOT EXISTS idx_keywords_keyword ON search_keywords(keyword);
CREATE INDEX IF NOT EXISTS idx_page_snapshots_type ON page_snapshots(page_type);
CREATE INDEX IF NOT EXISTS idx_page_snapshots_date ON page_snapshots(crawled_at);
CREATE INDEX IF NOT EXISTS idx_page_items_snapshot ON page_items(page_snapshot_id);
CREATE INDEX IF NOT EXISTS idx_page_items_item ON page_items(item_type, item_id);";

/// Inserts a singer, or updates the singer of the same name.
pub const INSERT_SINGER: &'static str = "INSERT INTO singers (name, avatar_url, songs_url) VALUES (?1, ?2, ?3) ON CONFLICT(name) DO UPDATE SET avatar_url = excluded.avatar_url, songs_url = excluded.songs_url, updated_at = CURRENT_TIMESTAMP";

/// The row id of the singer of a name.
pub const SINGER_ID_BY_NAME: &'static str = "SELECT id FROM singers WHERE name = ?1";

/// Inserts a song, or updates the song of the same id, keeping the known
/// optional fields that the new record lacks.
pub const INSERT_SONG: &'static str = "INSERT INTO songs (song_id, title, artist, cover_url, mp3_url, play_id, lrc, extra_url) VALUES (?1, ?2, ?3, ?4, ?5, ?6, ?7, ?8) ON CONFLICT(song_id) DO UPDATE SET title = excluded.title, artist = excluded.artist, cover_url = COALESCE(excluded.cover_url, cover_url), mp3_url = COALESCE(excluded.mp3_url, mp3_url), play_id = COALESCE(excluded.play_id, play_id), lrc = COALESCE(excluded.lrc, lrc), extra_url = COALESCE(excluded.extra_url, extra_url), updated_at = CURRENT_TIMESTAMP";

/// The row id of the song of a site id.
pub const SONG_ID_BY_SONG_ID: &'static str = "SELECT id FROM songs WHERE song_id = ?1";

/// Inserts a ranking entry, unless the ranking already has an entry of
/// that rank crawled at the same time: it is stored once.
pub const INSERT_RANKING: &'static str = "INSERT OR IGNORE INTO rankings (ranking_type, rank, song_id, singer_id) VALUES (?1, ?2, ?3, ?4)";

/// Inserts a search keyword, unless the same keyword of the same source
/// was crawled at the same time: it is stored once.
pub const INSERT_KEYWORD: &'static str = "INSERT OR IGNORE INTO search_keywords (keyword, source, rank) VALUES (?1, ?2, ?3)";

/// Inserts a download record.
pub const INSERT_DOWNLOAD: &'static str = "INSERT INTO downloads (song_id, file_path, file_size) VALUES (?1, ?2, ?3)";

/// Inserts a page snapshot.
pub const INSERT_SNAPSHOT: &'static str = "INSERT INTO page_snapshots (page_type, ranking_type, search_keyword, page_number, url, title) VALUES (?1, ?2, ?3, ?4, ?5, ?6)";

/// Inserts a page item.
pub const INSERT_PAGE_ITEM: &'static str = "INSERT INTO page_items (page_snapshot_id, item_type, item_id, position, extra_data) VALUES (?1, ?2, ?3, ?4, ?5)";

/// A nullable text parameter.
pub open spec fn opt_text_param(o: Option<Seq<char>>) -> SqlParamView {
    match o {
        Some(s) => SqlParamView::Text(s),
        None => SqlParamView::Null,
    }
}

/// A nullable integer parameter.
pub open spec fn opt_int_param(o: Option<i64>) -> SqlParamView {
    match o {
        Some(i) => SqlParamView::Integer(i),
        None => SqlParamView::Null,
    }
}

fn text_param(s: &String) -> (p: SqlParam)
    ensures
        p@ == SqlParamView::Text(s@),
{
    SqlParam::Text(s.clone())
}

fn opt_text(o: &Option<String>) -> (p: SqlParam)
    ensures
        p@ == opt_text_param(opt_str_view(*o)),
{
    match o {
        Some(s) => SqlParam::Text(s.clone()),
        None => SqlParam::Null,
    }
}

fn opt_int(o: Option<i64>) -> (p: SqlParam)
    ensures
        p@ == opt_int_param(o),
{
    match o {
        Some(i) => SqlParam::Integer(i),
        None => SqlParam::Null,
    }
}

/// The parameters of `singer_params`, as values.
pub open spec fn singer_params_spec(s: Singer) -> Seq<SqlParamView> {
    seq![
            SqlParamView::Text(s.name@),
            opt_text_param(opt_str_view(s.avatar_url)),
            opt_text_param(opt_str_view(s.songs_url)),
        ]
}

/// The parameters of [`INSERT_SINGER`] for a singer.
pub fn singer_params(s: &Singer) -> (p: Vec<SqlParam>)
    ensures
        params_view(p@) == singer_params_spec(*s),
{
    let mut p: Vec<SqlParam> = Vec::new();
    p.push(text_param(&s.name));
    p.push(opt_text(&s.avatar_url));
    p.push(opt_text(&s.songs_url));
    assert(params_view(p@) =~= seq![
        SqlParamView::Text(s.name@),
        opt_text_param(opt_str_view(s.avatar_url)),
        opt_text_param(opt_str_view(s.songs_url)),
    ]);
    p
}

/// The parameters of `song_params`, as values.
pub open spec fn song_params_spec(s: Song) -> Seq<SqlParamView> {
    seq![
            SqlParamView::Integer(s.song_id),
            SqlParamView::Text(s.title@),
            SqlParamView::Text(s.artist@),
            opt_text_param(opt_str_view(s.cover_url)),
            opt_text_param(opt_str_view(s.mp3_url)),
            opt_text_param(opt_str_view(s.play_id)),
            opt_text_param(opt_str_view(s.lrc)),
            opt_text_param(opt_str_view(s.extra_url)),
        ]
}

/// The parameters of [`INSERT_SONG`] for a song.
pub fn song_params(s: &Song) -> (p: Vec<SqlParam>)
    ensures
        params_view(p@) == song_params_spec(*s),
{
    let mut p: Vec<SqlParam> = Vec::new();
    p.push(SqlParam::Integer(s.song_id));
    p.push(text_param(&s.title));
    p.push(text_param(&s.artist));
    p.push(opt_text(&s.cover_url));
    p.push(opt_text(&s.mp3_url));
    p.push(opt_text(&s.play_id));
    p.push(opt_text(&s.lrc));
    p.push(opt_text(&s.extra_url));
    assert(params_view(p@) =~= seq![
        SqlParamView::Integer(s.song_id),
        SqlParamView::Text(s.title@),
        SqlParamView::Text(s.artist@),
        opt_text_param(opt_str_view(s.cover_url)),
        opt_text_param(opt_str_view(s.mp3_url)),
        opt_text_param(opt_str_view(s.play_id)),
        opt_text_param(opt_str_view(s.lrc)),
        opt_text_param(opt_str_view(s.extra_url)),
    ]);
    p
}

/// The parameters of `ranking_params`, as values.
pub open spec fn ranking_params_spec(item: RankingItem, song_db_id: Option<i64>, singer_db_id: Option<i64>) -> Seq<SqlParamView> {
    seq![
            SqlParamView::Text(item.ranking_type@),
            SqlParamView::Integer(item.rank as i64),
            opt_int_param(song_db_id),
            opt_int_param(singer_db_id),
        ]
}

/// The parameters of [`INSERT_RANKING`]: type, rank and the row ids found
/// for the song or the singer.
pub fn ranking_params(item: &RankingItem, song_db_id: Option<i64>, singer_db_id: Option<i64>) -> (p: Vec<SqlParam>)
    ensures
        params_view(p@) == ranking_params_spec(*item, song_db_id, singer_db_id),
{
    let mut p: Vec<SqlParam> = Vec::new();
    p.push(text_param(&item.ranking_type));
    p.push(SqlParam::Integer(item.rank as i64));
    p.push(opt_int(song_db_id));
    p.push(opt_int(singer_db_id));
    assert(params_view(p@) =~= seq![
        SqlParamView::Text(item.ranking_type@),
        SqlParamView::Integer(item.rank as i64),
        opt_int_param(song_db_id),
        opt_int_param(singer_db_id),
    ]);
    p
}

/// The parameters of `keyword_params`, as values.
pub open spec fn keyword_params_spec(k: SearchKeyword) -> Seq<SqlParamView> {
    seq![
            SqlParamView::Text(k.keyword@),
            SqlParamView::Text(k.source@),
            opt_int_param(
                match k.rank {
                    Some(r) => Some(r as i64),
                    None => None,
                },
            ),
        ]
}

/// The parameters of [`INSERT_KEYWORD`].
pub fn keyword_params(k: &SearchKeyword) -> (p: Vec<SqlParam>)
    ensures
        params_view(p@) == keyword_params_spec(*k),
{
    let mut p: Vec<SqlParam> = Vec::new();
    p.push(text_param(&k.keyword));
    p.push(text_param(&k.source));
    p.push(opt_int(
        match k.rank {
            Some(r) => Some(r as i64),
            None => None,
        },
    ));
    assert(params_view(p@) =~= seq![
        SqlParamView::Text(k.keyword@),
        SqlParamView::Text(k.source@),
        opt_int_param(
            match k.rank {
                Some(r) => Some(r as i64),
                None => None,
            },
        ),
    ]);
    p
}

/// The parameters of `download_params`, as values.
pub open spec fn download_params_spec(r: DownloadRecord) -> Seq<SqlParamView> {
    seq![
            SqlParamView::Integer(r.song_id),
            SqlParamView::Text(r.file_path@),
            opt_int_param(r.file_size),
        ]
}

/// The parameters of [`INSERT_DOWNLOAD`].
pub fn download_params(r: &DownloadRecord) -> (p: Vec<SqlParam>)
    ensures
        params_view(p@) == download_params_spec(*r),
{
    let mut p: Vec<SqlParam> = Vec::new();
    p.push(SqlParam::Integer(r.song_id));
    p.push(text_param(&r.file_path));
    p.push(opt_int(r.file_size));
    assert(params_view(p@) =~= seq![
        SqlParamView::Integer(r.song_id),
        SqlParamView::Text(r.file_path@),
        opt_int_param(r.file_size),
    ]);
    p
}

/// The parameters of `snapshot_params`, as values.
pub open spec fn snapshot_params_spec(s: PageSnapshot) -> Seq<SqlParamView> {
    seq![
            SqlParamView::Text(s.page_type@),
            opt_text_param(opt_str_view(s.ranking_type)),
            opt_text_param(opt_str_view(s.search_keyword)),
            SqlParamView::Integer(s.page_number as i64),
            opt_text_param(opt_str_view(s.url)),
            opt_text_param(opt_str_view(s.title)),
        ]
}

/// The parameters of [`INSERT_SNAPSHOT`].
pub fn snapshot_params(s: &PageSnapshot) -> (p: Vec<SqlParam>)
    ensures
        params_view(p@) == snapshot_params_spec(*s),
{
    let mut p: Vec<SqlParam> = Vec::new();
    p.push(text_param(&s.page_type));
    p.push(opt_text(&s.ranking_type));
    p.push(opt_text(&s.search_keyword));
    p.push(SqlParam::Integer(s.page_number as i64));
    p.push(opt_text(&s.url));
    p.push(opt_text(&s.title));
    assert(params_view(p@) =~= seq![
        SqlParamView::Text(s.page_type@),
        opt_text_param(opt_str_view(s.ranking_type)),
        opt_text_param(opt_str_view(s.search_keyword)),
        SqlParamView::Integer(s.page_number as i64),
        opt_text_param(opt_str_view(s.url)),
        opt_text_param(opt_str_view(s.title)),
    ]);
    p
}

/// The parameters of `page_item_params`, as values.
pub open spec fn page_item_params_spec(i: PageItem) -> Seq<SqlParamView> {
    seq![
            SqlParamView::Integer(i.page_snapshot_id),
            SqlParamView::Text(i.item_type@),
            opt_int_param(i.item_id),
            SqlParamView::Integer(i.position as i64),
            opt_text_param(opt_str_view(i.extra_data)),
        ]
}

/// The parameters of [`INSERT_PAGE_ITEM`].
pub fn page_item_params(i: &PageItem) -> (p: Vec<SqlParam>)
    ensures
        params_view(p@) == page_item_params_spec(*i),
{
    let mut p: Vec<SqlParam> = Vec::new();
    p.push(SqlParam::Integer(i.page_snapshot_id));
    p.push(text_param(&i.item_type));
    p.push(opt_int(i.item_id));
    p.push(SqlParam::Integer(i.position as i64));
    p.push(opt_text(&i.extra_data));
    assert(params_view(p@) =~= seq![
        SqlParamView::Integer(i.page_snapshot_id),
        SqlParamView::Text(i.item_type@),
        opt_int_param(i.item_id),
        SqlParamView::Integer(i.position as i64),
        opt_text_param(opt_str_view(i.extra_data)),
    ]);
    p
}

/// Which row a ranking entry refers to.
pub enum RankingRef {
    /// The song with this site id.
    Song(i64),
    /// The singer with this name.
    Singer(String),
    /// Nothing to look up.
    Unknown,
}

/// The row a ranking entry refers to: a `song` entry with an id names
/// that song, a `singer` entry with a name names that singer.
pub open spec fn ranking_ref_spec(item_type: Seq<char>, item_id: Option<i64>, item_name: Option<Seq<char>>) -> (Option<i64>, Option<Seq<char>>) {
    if item_type == "song"@ {
        (item_id, None)
    } else if item_type == "singer"@ {
        (None, item_name)
    } else {
        (None, None)
    }
}

/// The row a ranking entry refers to.
pub fn ranking_ref(item: &RankingItem) -> (r: RankingRef)
    ensures
        match r {
            RankingRef::Song(id) => ranking_ref_spec(item.item_type@, item.item_id, opt_str_view(item.item_name)) == (Some(id), None::<Seq<char>>),
            RankingRef::Singer(n) => ranking_ref_spec(item.item_type@, item.item_id, opt_str_view(item.item_name)) == (None::<i64>, Some(n@)),
            RankingRef::Unknown => ranking_ref_spec(item.item_type@, item.item_id, opt_str_view(item.item_name)) == (None::<i64>, None::<Seq<char>>),
        },
{
    if str_eq(item.item_type.as_str(), "song") {
        match item.item_id {
            Some(id) => RankingRef::Song(id),
            None => RankingRef::Unknown,
        }
    } else if str_eq(item.item_type.as_str(), "singer") {
        match &item.item_name {
            Some(n) => RankingRef::Singer(n.clone()),
            None => RankingRef::Unknown,
        }
    } else {
        RankingRef::Unknown
    }
}


// ---------------------------------------------------------------------
// The store
// ---------------------------------------------------------------------

/// Context of a failed connection.
pub const CTX_CONNECT: &'static str = "连接数据库失败";
/// Context of a failed schema creation.
pub const CTX_INIT: &'static str = "初始化数据库表失败";
/// Context of a failed singer insertion.
pub const CTX_INSERT_SINGER: &'static str = "插入歌手失败";
/// Context of a failed singer id lookup.
pub const CTX_SINGER_ID: &'static str = "查询歌手ID失败";
/// Context of a failed song insertion.
pub const CTX_INSERT_SONG: &'static str = "插入歌曲失败";
/// Context of a failed song id lookup.
pub const CTX_SONG_ID: &'static str = "查询歌曲ID失败";
/// Context of a failed ranking insertion.
pub const CTX_INSERT_RANKING: &'static str = "插入排行榜失败";
/// Context of a failed keyword insertion.
pub const CTX_INSERT_KEYWORD: &'static str = "插入搜索关键词失败";
/// Context of a failed download record insertion.
pub const CTX_INSERT_DOWNLOAD: &'static str = "插入下载记录失败";
/// Context of a failed snapshot insertion.
pub const CTX_INSERT_SNAPSHOT: &'static str = "插入页面快照失败";
/// Context of a failed page item insertion.
pub const CTX_INSERT_PAGE_ITEM: &'static str = "插入页面条目失败";
/// Context of a failed ranking listing.
pub const CTX_RANKINGS: &'static str = "查询排行榜失败";
/// Context of a failed listing of the most frequent songs.
pub const CTX_TOP_SONGS: &'static str = "查询热门歌曲失败";
/// Context of a failed listing of the most frequent singers.
pub const CTX_TOP_SINGERS: &'static str = "查询热门歌手失败";
/// Context of a failed snapshot listing.
pub const CTX_SNAPSHOTS: &'static str = "查询页面快照失败";

/// Whether `e` carries the context `c`.
pub open spec fn has_context(e: DbError, c: &str) -> bool {
    err_context(e) == Some(c@)
}

/// Whether `e` carries no context or that of a failed connection: the
/// errors of a lookup that adds none of its own.
pub open spec fn plain_failure(e: DbError) -> bool {
    e.context is None || has_context(e, CTX_CONNECT)
}

/// Whether `e` is an error reported by SQLite, under the context `c`.
pub open spec fn sqlite_failure(e: DbError, c: &str) -> bool {
    has_context(e, c) && e.kind is Sqlite
}

/// Whether `e` is a failed connection, or an error of a query that adds no
/// context of its own and reads every row it gets: SQLite's error or a
/// column of the wrong type.
pub open spec fn listing_failure(e: DbError) -> bool {
    ||| sqlite_failure(e, CTX_CONNECT)
    ||| e.context is None && (e.kind is Sqlite || e.kind is ColumnType)
}

/// Whether `e` is a failed connection, or the error of a listing under the
/// context `c`: SQLite's error or a column of the wrong type.
pub open spec fn listing_failure_in(e: DbError, c: &str) -> bool {
    ||| sqlite_failure(e, CTX_CONNECT)
    ||| has_context(e, c) && (e.kind is Sqlite || e.kind is ColumnType)
}

/// The row counts of the tables.
pub struct DbStats {
    pub total_singers: i64,
    pub total_songs: i64,
    pub total_rankings: i64,
    pub total_keywords: i64,
    pub total_downloads: i64,
    pub total_page_snapshots: i64,
    pub total_page_items: i64,
}

/// How often a song appeared on crawled pages.
pub struct SongAppearance {
    pub song_id: i64,
    pub total_count: i64,
    pub homepage_count: i64,
    pub ranking_count: i64,
}

/// How often a singer appeared on crawled pages.
pub struct SingerAppearance {
    pub singer_name: String,
    pub total_count: i64,
    pub homepage_count: i64,
    pub ranking_count: i64,
}

/// A statement handed to SQLite: its text and the values of its
/// parameters.
pub type Statement = (Seq<char>, Seq<SqlParamView>);

/// The statement of a query.
pub open spec fn query_statement(q: Query) -> Statement {
    (q.sql@, params_view(q.params@))
}

/// A statement without parameters.
pub open spec fn bare(sql: Seq<char>) -> Statement {
    (sql, Seq::empty())
}

/// A statement with one integer parameter.
pub open spec fn with_int(sql: Seq<char>, v: i64) -> Statement {
    (sql, seq![SqlParamView::Integer(v)])
}

/// A statement with one text parameter.
pub open spec fn with_text(sql: Seq<char>, v: Seq<char>) -> Statement {
    (sql, seq![SqlParamView::Text(v)])
}

/// Runs a query and reads `width` columns of each row; the query is
/// logged as run.
fn run_query(conn: &rusqlite::Connection, q: &Query, width: usize, log: &mut Ghost<Seq<Statement>>) -> (r: Result<Vec<Vec<SqlValue>>, DbError>)
    ensures
        final(log)@ == old(log)@.push(query_statement(*q)),
        r matches Ok(rows) ==> all_width(rows@, width as nat),
        r matches Err(e) ==> e.context is None && e.kind is Sqlite,
{
    let r = query_rows(conn, q.sql, &q.params, width);
    proof {
        log@ = log@.push(query_statement(*q));
    }
    match r {
        Ok(rows) => Ok(rows),
        Err(e) => Err(sqlite_error(e, None)),
    }
}

/// Runs a query and reads every row as a `T`.
fn run_records<T: RowRecord>(conn: &rusqlite::Connection, q: &Query, log: &mut Ghost<Seq<Statement>>) -> (r: Result<Vec<T>, DbError>)
    ensures
        final(log)@ == old(log)@.push(query_statement(*q)),
        r matches Err(e) ==> e.context is None && (e.kind is Sqlite || e.kind is ColumnType),
{
    let rows = match run_query(conn, q, T::width(), log) {
        Ok(rows) => rows,
        Err(e) => return Err(e),
    };
    match read_rows(&rows) {
        Ok(v) => Ok(v),
        Err(e) => Err(DbError { context: None, kind: e.kind }),
    }
}

/// Runs a query whose answer is one integer (a count or a row id).
fn run_count(conn: &rusqlite::Connection, q: &Query, log: &mut Ghost<Seq<Statement>>, answers: &mut Ghost<Seq<(Statement, i64)>>) -> (r: Result<i64, DbError>)
    ensures
        final(log)@ == old(log)@.push(query_statement(*q)),
        r matches Ok(v) ==> final(answers)@ == old(answers)@.push((query_statement(*q), v)),
        r is Err ==> final(answers)@ == old(answers)@,
        r matches Err(e) ==> e.context is None,
{
    let rows = match run_query(conn, q, 1, log) {
        Ok(rows) => rows,
        Err(e) => return Err(e),
    };
    let r = first_i64(&rows);
    match r {
        Ok(v) => {
            proof {
                answers@ = answers@.push((query_statement(*q), v));
            }
            Ok(v)
        },
        Err(e) => Err(e),
    }
}

/// Runs a statement, logged as run; a failure carries the context `ctx`.
fn run_statement(conn: &rusqlite::Connection, sql: &str, params: &Vec<SqlParam>, ctx: &str, log: &mut Ghost<Seq<Statement>>) -> (r: Result<(), DbError>)
    ensures
        final(log)@ == old(log)@.push((sql@, params_view(params@))),
        r matches Err(e) ==> has_context(e, ctx) && e.kind is Sqlite,
{
    let r = execute(conn, sql, params);
    proof {
        log@ = log@.push((sql@, params_view(params@)));
    }
    match r {
        Ok(_) => Ok(()),
        Err(e) => Err(sqlite_error(e, Some(ctx))),
    }
}

/// The lookups that inserting a ranking entry runs first: the song's row
/// id by its site id, or the singer's by name, or none.
pub open spec fn ranking_lookups(item: RankingItem) -> Seq<Statement> {
    match ranking_ref_spec(item.item_type@, item.item_id, opt_str_view(item.item_name)) {
        (Some(id), _) => seq![with_int(SONG_ID_BY_SONG_ID@, id)],
        (None, Some(name)) => seq![with_text(SINGER_ID_BY_NAME@, name)],
        (None, None) => Seq::empty(),
    }
}

/// Whether the links of a ranking entry may be `song_link` and
/// `singer_link`: a link is empty unless the entry names that kind of row.
pub open spec fn ranking_links(item: RankingItem, song_link: Option<i64>, singer_link: Option<i64>) -> bool {
    let found = ranking_ref_spec(item.item_type@, item.item_id, opt_str_view(item.item_name));
    &&& found.0 is None ==> song_link is None
    &&& found.1 is None ==> singer_link is None
}

/// The insertions of a batch of page items, in order.
pub open spec fn page_item_writes(items: Seq<PageItem>) -> Seq<Statement> {
    items.map_values(|i: PageItem| (INSERT_PAGE_ITEM@, page_item_params_spec(i)))
}

/// The seven counts that `get_stats` runs, in order.
pub open spec fn stats_queries() -> Seq<Statement> {
    seq![
        bare(COUNT_SINGERS@),
        bare(COUNT_SONGS@),
        bare(COUNT_RANKINGS@),
        bare(COUNT_SEARCH_KEYWORDS@),
        bare(COUNT_DOWNLOADS@),
        bare(COUNT_PAGE_SNAPSHOTS@),
        bare(COUNT_PAGE_ITEMS@),
    ]
}

/// What the seven counts of `get_stats` answered, each with its query: the
/// number of rows of each table, in the order of [`stats_queries`].
pub open spec fn stats_answers(s: DbStats) -> Seq<(Statement, i64)> {
    seq![
        (bare(COUNT_SINGERS@), s.total_singers),
        (bare(COUNT_SONGS@), s.total_songs),
        (bare(COUNT_RANKINGS@), s.total_rankings),
        (bare(COUNT_SEARCH_KEYWORDS@), s.total_keywords),
        (bare(COUNT_DOWNLOADS@), s.total_downloads),
        (bare(COUNT_PAGE_SNAPSHOTS@), s.total_page_snapshots),
        (bare(COUNT_PAGE_ITEMS@), s.total_page_items),
    ]
}

/// Each field of the store's summary is the count of its own table: in the
/// answers recorded when `get_stats` returns `s`, the count of `singers`
/// answered `s.total_singers`, that of `songs` `s.total_songs`, and so on
/// for rankings, keywords, downloads, snapshots and page items.
pub proof fn lemma_stats_count_their_own_tables(before: Seq<(Statement, i64)>, after: Seq<(Statement, i64)>, s: DbStats)
    requires
        after == before + stats_answers(s),
    ensures
        after.len() == before.len() + 7,
        forall|k: int| 0 <= k < 7 ==> (#[trigger] after[before.len() + k]).0 == stats_queries()[k],
        after[before.len() + 0int] == (bare(COUNT_SINGERS@), s.total_singers),
        after[before.len() + 1int] == (bare(COUNT_SONGS@), s.total_songs),
        after[before.len() + 2int] == (bare(COUNT_RANKINGS@), s.total_rankings),
        after[before.len() + 3int] == (bare(COUNT_SEARCH_KEYWORDS@), s.total_keywords),
        after[before.len() + 4int] == (bare(COUNT_DOWNLOADS@), s.total_downloads),
        after[before.len() + 5int] == (bare(COUNT_PAGE_SNAPSHOTS@), s.total_page_snapshots),
        after[before.len() + 6int] == (bare(COUNT_PAGE_ITEMS@), s.total_page_items),
{
    assert forall|k: int| 0 <= k < 7 implies (#[trigger] after[before.len() + k]).0 == stats_queries()[k] by {
        assert(after[before.len() + k] == stats_answers(s)[k]);
    }
}

/// What the lookups of a ranking entry answered: the row id found for the
/// song or the singer it names, which is then its link.
pub open spec fn link_answers(item: RankingItem, song_link: Option<i64>, singer_link: Option<i64>) -> Seq<(Statement, i64)> {
    match ranking_ref_spec(item.item_type@, item.item_id, opt_str_view(item.item_name)) {
        (Some(id), _) => match song_link {
            Some(v) => seq![(with_int(SONG_ID_BY_SONG_ID@, id), v)],
            None => Seq::empty(),
        },
        (None, Some(name)) => match singer_link {
            Some(v) => seq![(with_text(SINGER_ID_BY_NAME@, name), v)],
            None => Seq::empty(),
        },
        (None, None) => Seq::empty(),
    }
}

/// The SQLite store of crawled data, kept in one database file.
///
/// Besides the path, the store keeps (as ghost state) the statements it
/// has handed to SQLite since it was opened: those that write and those
/// that read, each list in order. The contracts say which statements each
/// operation runs; what SQLite makes of them depends on the file.
pub struct Database {
    db_path: String,
    writes: Ghost<Seq<Statement>>,
    reads: Ghost<Seq<Statement>>,
    answers: Ghost<Seq<(Statement, i64)>>,
}

impl Database {
    /// The path of the database file.
    pub closed spec fn path(&self) -> Seq<char> {
        self.db_path@
    }

    /// The writing statements run so far, in order.
    pub closed spec fn writes(&self) -> Seq<Statement> {
        self.writes@
    }

    /// The reading statements run so far, in order.
    pub closed spec fn reads(&self) -> Seq<Statement> {
        self.reads@
    }

    /// The single integers (counts and row ids) that SQLite answered to the
    /// queries that ask for one, each with its query, in order.
    pub closed spec fn answers(&self) -> Seq<(Statement, i64)> {
        self.answers@
    }

    /// Opens the store kept at `db_path` and creates its tables where they
    /// are missing. The directory of the file must exist.
    pub fn new(db_path: &str) -> (r: Result<Database, DbError>)
        ensures
            r matches Ok(db) ==> db.path() == db_path@ && db.writes() == seq![bare(SCHEMA@)]
                && db.reads() == Seq::<Statement>::empty() && db.answers() == Seq::<(Statement, i64)>::empty(),
            r matches Err(e) ==> has_context(e, CTX_CONNECT) || has_context(e, CTX_INIT),
    {
        let mut db = Database { db_path: owned(db_path), writes: Ghost(Seq::empty()), reads: Ghost(Seq::empty()), answers: Ghost(Seq::empty()) };
        match db.init_tables() {
            Ok(()) => {
                assert(Seq::<Statement>::empty().push(bare(SCHEMA@)) =~= seq![bare(SCHEMA@)]);
                Ok(db)
            },
            Err(e) => Err(e),
        }
    }

    /// The path of the database file.
    pub fn db_path(&self) -> (r: &str)
        ensures
            r@ == self.path(),
    {
        self.db_path.as_str()
    }

    fn get_connection(&self) -> (r: Result<rusqlite::Connection, DbError>)
        ensures
            r matches Err(e) ==> sqlite_failure(e, CTX_CONNECT),
    {
        match open_connection(self.db_path.as_str()) {
            Ok(c) => Ok(c),
            Err(e) => Err(sqlite_error(e, Some(CTX_CONNECT))),
        }
    }

    /// Creates the tables and indexes of [`SCHEMA`] where they are missing;
    /// stored rows are left as they are (the statements only create what is
    /// missing).
    pub fn init_tables(&mut self) -> (r: Result<(), DbError>)
        ensures
            final(self).path() == old(self).path(),
            final(self).answers() == old(self).answers(),
            final(self).reads() == old(self).reads(),
            r is Ok ==> final(self).writes() == old(self).writes().push(bare(SCHEMA@)),
            r matches Err(e) ==> sqlite_failure(e, CTX_CONNECT) || sqlite_failure(e, CTX_INIT),
    {
        let conn = match self.get_connection() {
            Ok(c) => c,
            Err(e) => return Err(e),
        };
        let r = execute_batch(&conn, SCHEMA);
        proof {
            self.writes@ = self.writes@.push(bare(SCHEMA@));
        }
        match r {
            Ok(()) => Ok(()),
            Err(e) => Err(sqlite_error(e, Some(CTX_INIT))),
        }
    }

    /// Inserts or updates a singer (by name) and returns its row id.
    pub fn insert_singer(&mut self, singer: &Singer) -> (r: Result<i64, DbError>)
        ensures
            final(self).path() == old(self).path(),
            r matches Ok(id) ==> final(self).answers() == old(self).answers().push((with_text(SINGER_ID_BY_NAME@, singer.name@), id)),
            r is Ok ==> final(self).writes() == old(self).writes().push((INSERT_SINGER@, singer_params_spec(*singer)))
                && final(self).reads() == old(self).reads().push(with_text(SINGER_ID_BY_NAME@, singer.name@)),
            r matches Err(e) ==> sqlite_failure(e, CTX_CONNECT) || sqlite_failure(e, CTX_INSERT_SINGER)
                || has_context(e, CTX_SINGER_ID),
    {
        let conn = match self.get_connection() {
            Ok(c) => c,
            Err(e) => return Err(e),
        };
        match run_statement(&conn, INSERT_SINGER, &singer_params(singer), CTX_INSERT_SINGER, &mut self.writes) {
            Ok(()) => {},
            Err(e) => return Err(e),
        }
        match run_count(&conn, &text_query(SINGER_ID_BY_NAME, singer.name.as_str()), &mut self.reads, &mut self.answers) {
            Ok(id) => Ok(id),
            Err(e) => Err(with_context(e, CTX_SINGER_ID)),
        }
    }

    /// Inserts or updates a song (by site id) and returns its row id.
    pub fn insert_song(&mut self, song: &Song) -> (r: Result<i64, DbError>)
        ensures
            final(self).path() == old(self).path(),
            r matches Ok(id) ==> final(self).answers() == old(self).answers().push((with_int(SONG_ID_BY_SONG_ID@, song.song_id), id)),
            r is Ok ==> final(self).writes() == old(self).writes().push((INSERT_SONG@, song_params_spec(*song)))
                && final(self).reads() == old(self).reads().push(with_int(SONG_ID_BY_SONG_ID@, song.song_id)),
            r matches Err(e) ==> sqlite_failure(e, CTX_CONNECT) || sqlite_failure(e, CTX_INSERT_SONG)
                || has_context(e, CTX_SONG_ID),
    {
        let conn = match self.get_connection() {
            Ok(c) => c,
            Err(e) => return Err(e),
        };
        match run_statement(&conn, INSERT_SONG, &song_params(song), CTX_INSERT_SONG, &mut self.writes) {
            Ok(()) => {},
            Err(e) => return Err(e),
        }
        match run_count(&conn, &int_query(SONG_ID_BY_SONG_ID, song.song_id), &mut self.reads, &mut self.answers) {
            Ok(id) => Ok(id),
            Err(e) => Err(with_context(e, CTX_SONG_ID)),
        }
    }

    /// Inserts a ranking entry, linked to the song or singer it names when
    /// that is already stored, and returns its row id. A failed lookup of
    /// the song or singer leaves the link empty. An entry of the same rank
    /// and crawl time is kept once (the id is then 0).
    pub fn insert_ranking_item(&mut self, item: &RankingItem) -> (r: Result<i64, DbError>)
        ensures
            final(self).path() == old(self).path(),
            r is Ok ==> final(self).reads() == old(self).reads() + ranking_lookups(*item)
                && exists|song_link: Option<i64>, singer_link: Option<i64>|
                    ranking_links(*item, song_link, singer_link) && final(self).writes() == old(self).writes().push(
                        (INSERT_RANKING@, ranking_params_spec(*item, song_link, singer_link)),
                    ) && final(self).answers() == old(self).answers() + link_answers(*item, song_link, singer_link),
            r matches Err(e) ==> sqlite_failure(e, CTX_CONNECT) || sqlite_failure(e, CTX_INSERT_RANKING),
    {
        let conn = match self.get_connection() {
            Ok(c) => c,
            Err(e) => return Err(e),
        };
        let ghost reads0 = self.reads@;
        let (song_db_id, singer_db_id) = match ranking_ref(item) {
            RankingRef::Song(id) => (run_count(&conn, &int_query(SONG_ID_BY_SONG_ID, id), &mut self.reads, &mut self.answers).ok(), None),
            RankingRef::Singer(name) => (None, run_count(&conn, &text_query(SINGER_ID_BY_NAME, name.as_str()), &mut self.reads, &mut self.answers).ok()),
            RankingRef::Unknown => (None, None),
        };
        assert(self.reads@ =~= reads0 + ranking_lookups(*item));
        assert(ranking_links(*item, song_db_id, singer_db_id));
        let params = ranking_params(item, song_db_id, singer_db_id);
        match run_statement(&conn, INSERT_RANKING, &params, CTX_INSERT_RANKING, &mut self.writes) {
            Ok(()) => Ok(last_insert_rowid(&conn)),
            Err(e) => Err(e),
        }
    }

    /// Inserts a search keyword and returns its row id. A keyword of the
    /// same source and crawl time is kept once (the id is then 0).
    pub fn insert_search_keyword(&mut self, keyword: &SearchKeyword) -> (r: Result<i64, DbError>)
        ensures
            final(self).path() == old(self).path(),
            final(self).answers() == old(self).answers(),
            final(self).reads() == old(self).reads(),
            r is Ok ==> final(self).writes() == old(self).writes().push((INSERT_KEYWORD@, keyword_params_spec(*keyword))),
            r matches Err(e) ==> sqlite_failure(e, CTX_CONNECT) || sqlite_failure(e, CTX_INSERT_KEYWORD),
    {
        let conn = match self.get_connection() {
            Ok(c) => c,
            Err(e) => return Err(e),
        };
        match run_statement(&conn, INSERT_KEYWORD, &keyword_params(keyword), CTX_INSERT_KEYWORD, &mut self.writes) {
            Ok(()) => Ok(last_insert_rowid(&conn)),
            Err(e) => Err(e),
        }
    }

    /// Inserts a download record and returns its row id.
    pub fn insert_download_record(&mut self, record: &DownloadRecord) -> (r: Result<i64, DbError>)
        ensures
            final(self).path() == old(self).path(),
            final(self).answers() == old(self).answers(),
            final(self).reads() == old(self).reads(),
            r is Ok ==> final(self).writes() == old(self).writes().push((INSERT_DOWNLOAD@, download_params_spec(*record))),
            r matches Err(e) ==> sqlite_failure(e, CTX_CONNECT) || sqlite_failure(e, CTX_INSERT_DOWNLOAD),
    {
        let conn = match self.get_connection() {
            Ok(c) => c,
            Err(e) => return Err(e),
        };
        match run_statement(&conn, INSERT_DOWNLOAD, &download_params(record), CTX_INSERT_DOWNLOAD, &mut self.writes) {
            Ok(()) => Ok(last_insert_rowid(&conn)),
            Err(e) => Err(e),
        }
    }

    /// Inserts a page snapshot and returns its row id.
    pub fn insert_page_snapshot(&mut self, snapshot: &PageSnapshot) -> (r: Result<i64, DbError>)
        ensures
            final(self).path() == old(self).path(),
            final(self).answers() == old(self).answers(),
            final(self).reads() == old(self).reads(),
            r is Ok ==> final(self).writes() == old(self).writes().push((INSERT_SNAPSHOT@, snapshot_params_spec(*snapshot))),
            r matches Err(e) ==> sqlite_failure(e, CTX_CONNECT) || sqlite_failure(e, CTX_INSERT_SNAPSHOT),
    {
        let conn = match self.get_connection() {
            Ok(c) => c,
            Err(e) => return Err(e),
        };
        match run_statement(&conn, INSERT_SNAPSHOT, &snapshot_params(snapshot), CTX_INSERT_SNAPSHOT, &mut self.writes) {
            Ok(()) => Ok(last_insert_rowid(&conn)),
            Err(e) => Err(e),
        }
    }

    /// Inserts a page item and returns its row id.
    pub fn insert_page_item(&mut self, item: &PageItem) -> (r: Result<i64, DbError>)
        ensures
            final(self).path() == old(self).path(),
            final(self).answers() == old(self).answers(),
            final(self).reads() == old(self).reads(),
            r is Ok ==> final(self).writes() == old(self).writes().push((INSERT_PAGE_ITEM@, page_item_params_spec(*item))),
            r matches Err(e) ==> sqlite_failure(e, CTX_CONNECT) || sqlite_failure(e, CTX_INSERT_PAGE_ITEM),
    {
        let conn = match self.get_connection() {
            Ok(c) => c,
            Err(e) => return Err(e),
        };
        match run_statement(&conn, INSERT_PAGE_ITEM, &page_item_params(item), CTX_INSERT_PAGE_ITEM, &mut self.writes) {
            Ok(()) => Ok(last_insert_rowid(&conn)),
            Err(e) => Err(e),
        }
    }

    /// Inserts the page items in order, stopping at the first failure, and
    /// returns how many were inserted: all of them.
    pub fn insert_page_items(&mut self, items: &[PageItem]) -> (r: Result<usize, DbError>)
        ensures
            final(self).path() == old(self).path(),
            final(self).answers() == old(self).answers(),
            final(self).reads() == old(self).reads(),
            items@.len() == 0 ==> r matches Ok(0),
            r matches Ok(n) ==> n == items@.len() && final(self).writes() == old(self).writes() + page_item_writes(items@),
            r matches Err(e) ==> items@.len() > 0 && (sqlite_failure(e, CTX_CONNECT) || sqlite_failure(e, CTX_INSERT_PAGE_ITEM)),
    {
        let ghost writes0 = self.writes@;
        let mut count: usize = 0;
        while count < items.len()
            invariant
                count <= items@.len(),
                self.path() == old(self).path(),
                self.reads() == old(self).reads(),
                self.answers() == old(self).answers(),
                writes0 == old(self).writes(),
                self.writes() == writes0 + page_item_writes(items@.take(count as int)),
            decreases items.len() - count,
        {
            match self.insert_page_item(&items[count]) {
                Ok(_) => {},
                Err(e) => return Err(e),
            }
            assert(items@.take(count + 1) =~= items@.take(count as int).push(items@[count as int]));
            assert(page_item_writes(items@.take(count + 1)) =~= page_item_writes(items@.take(count as int)).push(
                (INSERT_PAGE_ITEM@, page_item_params_spec(items@[count as int])),
            ));
            count = count + 1;
        }
        assert(items@.take(count as int) =~= items@);
        Ok(count)
    }

    /// The row counts of all tables.
    pub fn get_stats(&mut self) -> (r: Result<DbStats, DbError>)
        ensures
            final(self).path() == old(self).path(),
            r matches Ok(s) ==> final(self).answers() == old(self).answers() + stats_answers(s),
            final(self).writes() == old(self).writes(),
            r is Ok ==> final(self).reads() == old(self).reads() + stats_queries(),
            r matches Err(e) ==> sqlite_failure(e, CTX_CONNECT) || e.context is None,
    {
        let conn = match self.get_connection() {
            Ok(c) => c,
            Err(e) => return Err(e),
        };
        let ghost reads0 = self.reads@;
        let total_singers = match run_count(&conn, &plain_query(COUNT_SINGERS), &mut self.reads, &mut self.answers) {
            Ok(n) => n,
            Err(e) => return Err(e),
        };
        let total_songs = match run_count(&conn, &plain_query(COUNT_SONGS), &mut self.reads, &mut self.answers) {
            Ok(n) => n,
            Err(e) => return Err(e),
        };
        let total_rankings = match run_count(&conn, &plain_query(COUNT_RANKINGS), &mut self.reads, &mut self.answers) {
            Ok(n) => n,
            Err(e) => return Err(e),
        };
        let total_keywords = match run_count(&conn, &plain_query(COUNT_SEARCH_KEYWORDS), &mut self.reads, &mut self.answers) {
            Ok(n) => n,
            Err(e) => return Err(e),
        };
        let total_downloads = match run_count(&conn, &plain_query(COUNT_DOWNLOADS), &mut self.reads, &mut self.answers) {
            Ok(n) => n,
            Err(e) => return Err(e),
        };
        let total_page_snapshots = match run_count(&conn, &plain_query(COUNT_PAGE_SNAPSHOTS), &mut self.reads, &mut self.answers) {
            Ok(n) => n,
            Err(e) => return Err(e),
        };
        let total_page_items = match run_count(&conn, &plain_query(COUNT_PAGE_ITEMS), &mut self.reads, &mut self.answers) {
            Ok(n) => n,
            Err(e) => return Err(e),
        };
        assert(self.reads@ =~= reads0 + stats_queries());
        Ok(DbStats {
            total_singers,
            total_songs,
            total_rankings,
            total_keywords,
            total_downloads,
            total_page_snapshots,
            total_page_items,
        })
    }

    /// The stored song with site id `song_id`, if there is one and its row
    /// can be read. Only a connection, or a statement that does not compile,
    /// fails; a lookup that fails while it runs finds nothing.
    pub fn get_song_by_id(&mut self, song_id: i64) -> (r: Result<Option<SongRow>, DbError>)
        ensures
            final(self).path() == old(self).path(),
            final(self).answers() == old(self).answers(),
            final(self).writes() == old(self).writes(),
            r is Ok ==> final(self).reads() == old(self).reads().push(with_int(SONG_BY_SONG_ID@, song_id)),
            r matches Err(e) ==> (e.context is None || has_context(e, CTX_CONNECT)) && e.kind is Sqlite,
    {
        let conn = match self.get_connection() {
            Ok(c) => c,
            Err(e) => return Err(e),
        };
        let q = int_query(SONG_BY_SONG_ID, song_id);
        match prepare_statement(&conn, q.sql) {
            Ok(()) => {},
            Err(e) => return Err(sqlite_error(e, None)),
        }
        match run_query(&conn, &q, SongRow::width(), &mut self.reads) {
            Ok(rows) => Ok(read_first(&rows)),
            Err(_) => Ok(None),
        }
    }

    /// The stored singer named `name`, if there is one and its row can be
    /// read. Only a connection, or a statement that does not compile, fails;
    /// a lookup that fails while it runs finds nothing.
    pub fn get_singer_by_name(&mut self, name: &str) -> (r: Result<Option<SingerRow>, DbError>)
        ensures
            final(self).path() == old(self).path(),
            final(self).answers() == old(self).answers(),
            final(self).writes() == old(self).writes(),
            r is Ok ==> final(self).reads() == old(self).reads().push(with_text(SINGER_BY_NAME@, name@)),
            r matches Err(e) ==> (e.context is None || has_context(e, CTX_CONNECT)) && e.kind is Sqlite,
    {
        let conn = match self.get_connection() {
            Ok(c) => c,
            Err(e) => return Err(e),
        };
        let q = text_query(SINGER_BY_NAME, name);
        match prepare_statement(&conn, q.sql) {
            Ok(()) => {},
            Err(e) => return Err(sqlite_error(e, None)),
        }
        match run_query(&conn, &q, SingerRow::width(), &mut self.reads) {
            Ok(rows) => Ok(read_first(&rows)),
            Err(_) => Ok(None),
        }
    }

    /// The `limit` singers stored last.
    pub fn get_all_singers(&mut self, limit: i64) -> (r: Result<Vec<SingerRow>, DbError>)
        ensures
            final(self).path() == old(self).path(),
            final(self).answers() == old(self).answers(),
            final(self).writes() == old(self).writes(),
            r is Ok ==> final(self).reads() == old(self).reads().push(with_int(ALL_SINGERS@, limit)),
            r matches Err(e) ==> listing_failure(e),
    {
        let conn = match self.get_connection() {
            Ok(c) => c,
            Err(e) => return Err(e),
        };
        run_records(&conn, &int_query(ALL_SINGERS, limit), &mut self.reads)
    }

    /// The `limit` songs stored last.
    pub fn get_all_songs(&mut self, limit: i64) -> (r: Result<Vec<SongRow>, DbError>)
        ensures
            final(self).path() == old(self).path(),
            final(self).answers() == old(self).answers(),
            final(self).writes() == old(self).writes(),
            r is Ok ==> final(self).reads() == old(self).reads().push(with_int(ALL_SONGS@, limit)),
            r matches Err(e) ==> listing_failure(e),
    {
        let conn = match self.get_connection() {
            Ok(c) => c,
            Err(e) => return Err(e),
        };
        run_records(&conn, &int_query(ALL_SONGS, limit), &mut self.reads)
    }

    /// The `limit` latest downloads, with their songs.
    pub fn get_all_downloads(&mut self, limit: i64) -> (r: Result<Vec<DownloadRow>, DbError>)
        ensures
            final(self).path() == old(self).path(),
            final(self).answers() == old(self).answers(),
            final(self).writes() == old(self).writes(),
            r is Ok ==> final(self).reads() == old(self).reads().push(with_int(ALL_DOWNLOADS@, limit)),
            r matches Err(e) ==> listing_failure(e),
    {
        let conn = match self.get_connection() {
            Ok(c) => c,
            Err(e) => return Err(e),
        };
        run_records(&conn, &int_query(ALL_DOWNLOADS, limit), &mut self.reads)
    }

    /// The `limit` latest ranking entries, of `ranking_type` when given.
    pub fn get_all_rankings(&mut self, ranking_type: Option<&str>, limit: i64) -> (r: Result<Vec<RankingRow>, DbError>)
        ensures
            final(self).path() == old(self).path(),
            final(self).answers() == old(self).answers(),
            final(self).writes() == old(self).writes(),
            r is Ok ==> final(self).reads() == old(self).reads().push(
                (rankings_sql(ranking_type is Some), filter_params(opt_ref_view(ranking_type)).push(SqlParamView::Integer(limit))),
            ),
            r matches Err(e) ==> listing_failure_in(e, CTX_RANKINGS),
    {
        let conn = match self.get_connection() {
            Ok(c) => c,
            Err(e) => return Err(e),
        };
        match run_records(&conn, &rankings_query(ranking_type, limit), &mut self.reads) {
            Ok(v) => Ok(v),
            Err(e) => Err(with_context(e, CTX_RANKINGS)),
        }
    }

    /// How often the song with site id `song_id` appeared on crawled
    /// pages: in all, on home pages and on ranking pages.
    pub fn get_song_appearance_stats(&mut self, song_id: i64) -> (r: Result<SongAppearance, DbError>)
        ensures
            final(self).path() == old(self).path(),
            r matches Ok(s) ==> final(self).answers() == old(self).answers() + seq![
                (with_int(SONG_APPEARANCES@, song_id), s.total_count),
                (with_int(SONG_APPEARANCES_ON_HOMEPAGE@, song_id), s.homepage_count),
                (with_int(SONG_APPEARANCES_ON_RANKING@, song_id), s.ranking_count),
            ],
            final(self).writes() == old(self).writes(),
            r matches Ok(s) ==> s.song_id == song_id && final(self).reads() == old(self).reads() + seq![
                with_int(SONG_APPEARANCES@, song_id),
                with_int(SONG_APPEARANCES_ON_HOMEPAGE@, song_id),
                with_int(SONG_APPEARANCES_ON_RANKING@, song_id),
            ],
            r matches Err(e) ==> plain_failure(e),
    {
        let conn = match self.get_connection() {
            Ok(c) => c,
            Err(e) => return Err(e),
        };
        let ghost reads0 = self.reads@;
        let total_count = match run_count(&conn, &int_query(SONG_APPEARANCES, song_id), &mut self.reads, &mut self.answers) {
            Ok(n) => n,
            Err(e) => return Err(e),
        };
        let homepage_count = match run_count(&conn, &int_query(SONG_APPEARANCES_ON_HOMEPAGE, song_id), &mut self.reads, &mut self.answers) {
            Ok(n) => n,
            Err(e) => return Err(e),
        };
        let ranking_count = match run_count(&conn, &int_query(SONG_APPEARANCES_ON_RANKING, song_id), &mut self.reads, &mut self.answers) {
            Ok(n) => n,
            Err(e) => return Err(e),
        };
        assert(self.reads@ =~= reads0 + seq![
            with_int(SONG_APPEARANCES@, song_id),
            with_int(SONG_APPEARANCES_ON_HOMEPAGE@, song_id),
            with_int(SONG_APPEARANCES_ON_RANKING@, song_id),
        ]);
        Ok(SongAppearance { song_id, total_count, homepage_count, ranking_count })
    }

    /// How often the singer named `singer_name` appeared on crawled pages:
    /// in all, on home pages and on ranking pages.
    pub fn get_singer_appearance_stats(&mut self, singer_name: &str) -> (r: Result<SingerAppearance, DbError>)
        ensures
            final(self).path() == old(self).path(),
            r matches Ok(s) ==> final(self).answers() == old(self).answers() + seq![
                (with_text(SINGER_APPEARANCES@, singer_name@), s.total_count),
                (with_text(SINGER_APPEARANCES_ON_HOMEPAGE@, singer_name@), s.homepage_count),
                (with_text(SINGER_APPEARANCES_ON_RANKING@, singer_name@), s.ranking_count),
            ],
            final(self).writes() == old(self).writes(),
            r matches Ok(s) ==> s.singer_name@ == singer_name@ && final(self).reads() == old(self).reads() + seq![
                with_text(SINGER_APPEARANCES@, singer_name@),
                with_text(SINGER_APPEARANCES_ON_HOMEPAGE@, singer_name@),
                with_text(SINGER_APPEARANCES_ON_RANKING@, singer_name@),
            ],
            r matches Err(e) ==> plain_failure(e),
    {
        let conn = match self.get_connection() {
            Ok(c) => c,
            Err(e) => return Err(e),
        };
        let ghost reads0 = self.reads@;
        let total_count = match run_count(&conn, &text_query(SINGER_APPEARANCES, singer_name), &mut self.reads, &mut self.answers) {
            Ok(n) => n,
            Err(e) => return Err(e),
        };
        let homepage_count = match run_count(&conn, &text_query(SINGER_APPEARANCES_ON_HOMEPAGE, singer_name), &mut self.reads, &mut self.answers) {
            Ok(n) => n,
            Err(e) => return Err(e),
        };
        let ranking_count = match run_count(&conn, &text_query(SINGER_APPEARANCES_ON_RANKING, singer_name), &mut self.reads, &mut self.answers) {
            Ok(n) => n,
            Err(e) => return Err(e),
        };
        assert(self.reads@ =~= reads0 + seq![
            with_text(SINGER_APPEARANCES@, singer_name@),
            with_text(SINGER_APPEARANCES_ON_HOMEPAGE@, singer_name@),
            with_text(SINGER_APPEARANCES_ON_RANKING@, singer_name@),
        ]);
        Ok(SingerAppearance { singer_name: owned(singer_name), total_count, homepage_count, ranking_count })
    }

    /// The `limit` songs seen most often on pages crawled within the bounds
    /// given.
    pub fn get_top_appearing_songs(&mut self, limit: i64, date_from: Option<&str>, date_to: Option<&str>) -> (r: Result<Vec<TopSongRow>, DbError>)
        ensures
            final(self).path() == old(self).path(),
            final(self).answers() == old(self).answers(),
            final(self).writes() == old(self).writes(),
            r is Ok ==> final(self).reads() == old(self).reads().push(
                (top_songs_sql(date_from is Some, date_to is Some), window_params(date_from, date_to, limit)),
            ),
            r matches Err(e) ==> listing_failure_in(e, CTX_TOP_SONGS),
    {
        let conn = match self.get_connection() {
            Ok(c) => c,
            Err(e) => return Err(e),
        };
        match run_records(&conn, &top_songs_query(limit, date_from, date_to), &mut self.reads) {
            Ok(v) => Ok(v),
            Err(e) => Err(with_context(e, CTX_TOP_SONGS)),
        }
    }

    /// The `limit` singers seen most often on pages crawled within the
    /// bounds given.
    pub fn get_top_appearing_singers(&mut self, limit: i64, date_from: Option<&str>, date_to: Option<&str>) -> (r: Result<Vec<TopSingerRow>, DbError>)
        ensures
            final(self).path() == old(self).path(),
            final(self).answers() == old(self).answers(),
            final(self).writes() == old(self).writes(),
            r is Ok ==> final(self).reads() == old(self).reads().push(
                (top_singers_sql(date_from is Some, date_to is Some), window_params(date_from, date_to, limit)),
            ),
            r matches Err(e) ==> listing_failure_in(e, CTX_TOP_SINGERS),
    {
        let conn = match self.get_connection() {
            Ok(c) => c,
            Err(e) => return Err(e),
        };
        match run_records(&conn, &top_singers_query(limit, date_from, date_to), &mut self.reads) {
            Ok(v) => Ok(v),
            Err(e) => Err(with_context(e, CTX_TOP_SINGERS)),
        }
    }

    /// The `limit` latest page snapshots, of `page_type` and of the ranking
    /// `ranking_type`, and within the crawl-time bounds, for each of these
    /// that is given.
    pub fn get_page_snapshots(&mut self, page_type: Option<&str>, ranking_type: Option<&str>, limit: i64, date_from: Option<&str>, date_to: Option<&str>) -> (r: Result<Vec<SnapshotRow>, DbError>)
        ensures
            final(self).path() == old(self).path(),
            final(self).answers() == old(self).answers(),
            final(self).writes() == old(self).writes(),
            r is Ok ==> final(self).reads() == old(self).reads().push(
                (
                    snapshots_sql(page_type is Some, ranking_type is Some, date_from is Some, date_to is Some),
                    filter_params(opt_ref_view(page_type)) + filter_params(opt_ref_view(ranking_type))
                        + window_params(date_from, date_to, limit),
                ),
            ),
            r matches Err(e) ==> listing_failure_in(e, CTX_SNAPSHOTS),
    {
        let conn = match self.get_connection() {
            Ok(c) => c,
            Err(e) => return Err(e),
        };
        match run_records(&conn, &snapshots_query(page_type, ranking_type, limit, date_from, date_to), &mut self.reads) {
            Ok(v) => Ok(v),
            Err(e) => Err(with_context(e, CTX_SNAPSHOTS)),
        }
    }
}

} // verus!
