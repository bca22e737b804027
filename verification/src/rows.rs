//! Typed rows read back from the database.
//!
//! A query gives rows of [`SqlValue`]s; each record type here says, by a
//! spec function, which rows it can be read from and what it holds then.

use vstd::prelude::*;
use crate::database::{
    DbError, DbErrorKind, col_i32, col_i64, col_opt_i64, col_opt_text, col_text, i32_col, int_col,
    opt_int_col, opt_text_col, text_col,
};
use crate::pattern::opt_str_view;
use crate::sqlite::SqlValue;

verus! {

/// A record that is read from one result row.
pub trait RowRecord: Sized {
    /// The number of columns the row has.
    spec fn width_spec() -> nat;

    /// Whether every column of `row` holds a value of the type read.
    spec fn readable(row: Seq<SqlValue>) -> bool;

    /// Whether `self` holds what `row` holds.
    spec fn read_from(&self, row: Seq<SqlValue>) -> bool;

    fn width() -> (w: usize)
        ensures
            w == Self::width_spec(),
    ;

    fn read(row: &Vec<SqlValue>) -> (r: Result<Self, DbError>)
        requires
            row@.len() == Self::width_spec(),
        ensures
            match r {
                Ok(v) => Self::readable(row@) && v.read_from(row@),
                Err(e) => !Self::readable(row@) && e.kind is ColumnType && e.context is None,
            },
    ;
}

/// A song row: `id, song_id, title, artist, cover_url, created_at`.
pub struct SongRow {
    pub id: i64,
    pub song_id: i64,
    pub title: String,
    pub artist: String,
    pub cover_url: Option<String>,
    pub created_at: Option<String>,
}

impl RowRecord for SongRow {
    open spec fn width_spec() -> nat {
        6
    }

    open spec fn readable(row: Seq<SqlValue>) -> bool {
        &&& int_col(row[0]) is Some
        &&& int_col(row[1]) is Some
        &&& text_col(row[2]) is Some
        &&& text_col(row[3]) is Some
        &&& opt_text_col(row[4]) is Some
        &&& opt_text_col(row[5]) is Some
    }

    open spec fn read_from(&self, row: Seq<SqlValue>) -> bool {
        &&& int_col(row[0]) == Some(self.id)
        &&& int_col(row[1]) == Some(self.song_id)
        &&& text_col(row[2]) == Some(self.title@)
        &&& text_col(row[3]) == Some(self.artist@)
        &&& opt_text_col(row[4]) == Some(opt_str_view(self.cover_url))
        &&& opt_text_col(row[5]) == Some(opt_str_view(self.created_at))
    }

    fn width() -> (w: usize) {
        6
    }

    fn read(row: &Vec<SqlValue>) -> (r: Result<Self, DbError>) {
        let id = match col_i64(row, 0) {
            Ok(v) => v,
            Err(e) => return Err(e),
        };
        let song_id = match col_i64(row, 1) {
            Ok(v) => v,
            Err(e) => return Err(e),
        };
        let title = match col_text(row, 2) {
            Ok(v) => v,
            Err(e) => return Err(e),
        };
        let artist = match col_text(row, 3) {
            Ok(v) => v,
            Err(e) => return Err(e),
        };
        let cover_url = match col_opt_text(row, 4) {
            Ok(v) => v,
            Err(e) => return Err(e),
        };
        let created_at = match col_opt_text(row, 5) {
            Ok(v) => v,
            Err(e) => return Err(e),
        };
        Ok(SongRow { id, song_id, title, artist, cover_url, created_at })
    }
}


/// A singer row: `id, name, avatar_url, songs_url, created_at`.
pub struct SingerRow {
    pub id: i64,
    pub name: String,
    pub avatar_url: Option<String>,
    pub songs_url: Option<String>,
    pub created_at: Option<String>,
}

impl RowRecord for SingerRow {
    open spec fn width_spec() -> nat {
        5
    }

    open spec fn readable(row: Seq<SqlValue>) -> bool {
        &&& int_col(row[0]) is Some
        &&& text_col(row[1]) is Some
        &&& opt_text_col(row[2]) is Some
        &&& opt_text_col(row[3]) is Some
        &&& opt_text_col(row[4]) is Some
    }

    open spec fn read_from(&self, row: Seq<SqlValue>) -> bool {
        &&& int_col(row[0]) == Some(self.id)
        &&& text_col(row[1]) == Some(self.name@)
        &&& opt_text_col(row[2]) == Some(opt_str_view(self.avatar_url))
        &&& opt_text_col(row[3]) == Some(opt_str_view(self.songs_url))
        &&& opt_text_col(row[4]) == Some(opt_str_view(self.created_at))
    }

    fn width() -> (w: usize) {
        5
    }

    fn read(row: &Vec<SqlValue>) -> (r: Result<Self, DbError>) {
        let id = match col_i64(row, 0) {
            Ok(v) => v,
            Err(e) => return Err(e),
        };
        let name = match col_text(row, 1) {
            Ok(v) => v,
            Err(e) => return Err(e),
        };
        let avatar_url = match col_opt_text(row, 2) {
            Ok(v) => v,
            Err(e) => return Err(e),
        };
        let songs_url = match col_opt_text(row, 3) {
            Ok(v) => v,
            Err(e) => return Err(e),
        };
        let created_at = match col_opt_text(row, 4) {
            Ok(v) => v,
            Err(e) => return Err(e),
        };
        Ok(SingerRow { id, name, avatar_url, songs_url, created_at })
    }
}

/// A download row joined with its song: `id, song_id, file_path, file_size,
/// downloaded_at, real_song_id, title, artist`.
pub struct DownloadRow {
    pub id: i64,
    pub song_id: i64,
    pub file_path: String,
    pub file_size: Option<i64>,
    pub downloaded_at: Option<String>,
    pub real_song_id: Option<i64>,
    pub title: Option<String>,
    pub artist: Option<String>,
}

impl RowRecord for DownloadRow {
    open spec fn width_spec() -> nat {
        8
    }

    open spec fn readable(row: Seq<SqlValue>) -> bool {
        &&& int_col(row[0]) is Some
        &&& int_col(row[1]) is Some
        &&& text_col(row[2]) is Some
        &&& opt_int_col(row[3]) is Some
        &&& opt_text_col(row[4]) is Some
        &&& opt_int_col(row[5]) is Some
        &&& opt_text_col(row[6]) is Some
        &&& opt_text_col(row[7]) is Some
    }

    open spec fn read_from(&self, row: Seq<SqlValue>) -> bool {
        &&& int_col(row[0]) == Some(self.id)
        &&& int_col(row[1]) == Some(self.song_id)
        &&& text_col(row[2]) == Some(self.file_path@)
        &&& opt_int_col(row[3]) == Some(self.file_size)
        &&& opt_text_col(row[4]) == Some(opt_str_view(self.downloaded_at))
        &&& opt_int_col(row[5]) == Some(self.real_song_id)
        &&& opt_text_col(row[6]) == Some(opt_str_view(self.title))
        &&& opt_text_col(row[7]) == Some(opt_str_view(self.artist))
    }

    fn width() -> (w: usize) {
        8
    }

    fn read(row: &Vec<SqlValue>) -> (r: Result<Self, DbError>) {
        let id = match col_i64(row, 0) {
            Ok(v) => v,
            Err(e) => return Err(e),
        };
        let song_id = match col_i64(row, 1) {
            Ok(v) => v,
            Err(e) => return Err(e),
        };
        let file_path = match col_text(row, 2) {
            Ok(v) => v,
            Err(e) => return Err(e),
        };
        let file_size = match col_opt_i64(row, 3) {
            Ok(v) => v,
            Err(e) => return Err(e),
        };
        let downloaded_at = match col_opt_text(row, 4) {
            Ok(v) => v,
            Err(e) => return Err(e),
        };
        let real_song_id = match col_opt_i64(row, 5) {
            Ok(v) => v,
            Err(e) => return Err(e),
        };
        let title = match col_opt_text(row, 6) {
            Ok(v) => v,
            Err(e) => return Err(e),
        };
        let artist = match col_opt_text(row, 7) {
            Ok(v) => v,
            Err(e) => return Err(e),
        };
        Ok(DownloadRow { id, song_id, file_path, file_size, downloaded_at, real_song_id, title, artist })
    }
}

/// A ranking row joined with its song and singer: `id, ranking_type, rank,
/// crawled_at, song_id, title, artist, singer_name`.
pub struct RankingRow {
    pub id: i64,
    pub ranking_type: String,
    pub rank: i32,
    pub crawled_at: Option<String>,
    pub song_id: Option<i64>,
    pub title: Option<String>,
    pub artist: Option<String>,
    pub singer_name: Option<String>,
}

impl RowRecord for RankingRow {
    open spec fn width_spec() -> nat {
        8
    }

    open spec fn readable(row: Seq<SqlValue>) -> bool {
        &&& int_col(row[0]) is Some
        &&& text_col(row[1]) is Some
        &&& i32_col(row[2]) is Some
        &&& opt_text_col(row[3]) is Some
        &&& opt_int_col(row[4]) is Some
        &&& opt_text_col(row[5]) is Some
        &&& opt_text_col(row[6]) is Some
        &&& opt_text_col(row[7]) is Some
    }

    open spec fn read_from(&self, row: Seq<SqlValue>) -> bool {
        &&& int_col(row[0]) == Some(self.id)
        &&& text_col(row[1]) == Some(self.ranking_type@)
        &&& i32_col(row[2]) == Some(self.rank)
        &&& opt_text_col(row[3]) == Some(opt_str_view(self.crawled_at))
        &&& opt_int_col(row[4]) == Some(self.song_id)
        &&& opt_text_col(row[5]) == Some(opt_str_view(self.title))
        &&& opt_text_col(row[6]) == Some(opt_str_view(self.artist))
        &&& opt_text_col(row[7]) == Some(opt_str_view(self.singer_name))
    }

    fn width() -> (w: usize) {
        8
    }

    fn read(row: &Vec<SqlValue>) -> (r: Result<Self, DbError>) {
        let id = match col_i64(row, 0) {
            Ok(v) => v,
            Err(e) => return Err(e),
        };
        let ranking_type = match col_text(row, 1) {
            Ok(v) => v,
            Err(e) => return Err(e),
        };
        let rank = match col_i32(row, 2) {
            Ok(v) => v,
            Err(e) => return Err(e),
        };
        let crawled_at = match col_opt_text(row, 3) {
            Ok(v) => v,
            Err(e) => return Err(e),
        };
        let song_id = match col_opt_i64(row, 4) {
            Ok(v) => v,
            Err(e) => return Err(e),
        };
        let title = match col_opt_text(row, 5) {
            Ok(v) => v,
            Err(e) => return Err(e),
        };
        let artist = match col_opt_text(row, 6) {
            Ok(v) => v,
            Err(e) => return Err(e),
        };
        let singer_name = match col_opt_text(row, 7) {
            Ok(v) => v,
            Err(e) => return Err(e),
        };
        Ok(RankingRow { id, ranking_type, rank, crawled_at, song_id, title, artist, singer_name })
    }
}

/// A song and how often it appeared on crawled pages: `song_id, title,
/// artist, appearance_count`.
pub struct TopSongRow {
    pub song_id: i64,
    pub title: String,
    pub artist: String,
    pub appearance_count: i64,
}

impl RowRecord for TopSongRow {
    open spec fn width_spec() -> nat {
        4
    }

    open spec fn readable(row: Seq<SqlValue>) -> bool {
        &&& int_col(row[0]) is Some
        &&& text_col(row[1]) is Some
        &&& text_col(row[2]) is Some
        &&& int_col(row[3]) is Some
    }

    open spec fn read_from(&self, row: Seq<SqlValue>) -> bool {
        &&& int_col(row[0]) == Some(self.song_id)
        &&& text_col(row[1]) == Some(self.title@)
        &&& text_col(row[2]) == Some(self.artist@)
        &&& int_col(row[3]) == Some(self.appearance_count)
    }

    fn width() -> (w: usize) {
        4
    }

    fn read(row: &Vec<SqlValue>) -> (r: Result<Self, DbError>) {
        let song_id = match col_i64(row, 0) {
            Ok(v) => v,
            Err(e) => return Err(e),
        };
        let title = match col_text(row, 1) {
            Ok(v) => v,
            Err(e) => return Err(e),
        };
        let artist = match col_text(row, 2) {
            Ok(v) => v,
            Err(e) => return Err(e),
        };
        let appearance_count = match col_i64(row, 3) {
            Ok(v) => v,
            Err(e) => return Err(e),
        };
        Ok(TopSongRow { song_id, title, artist, appearance_count })
    }
}

/// A singer and how often it appeared on crawled pages: `name,
/// appearance_count`.
pub struct TopSingerRow {
    pub name: String,
    pub appearance_count: i64,
}

impl RowRecord for TopSingerRow {
    open spec fn width_spec() -> nat {
        2
    }

    open spec fn readable(row: Seq<SqlValue>) -> bool {
        &&& text_col(row[0]) is Some
        &&& int_col(row[1]) is Some
    }

    open spec fn read_from(&self, row: Seq<SqlValue>) -> bool {
        &&& text_col(row[0]) == Some(self.name@)
        &&& int_col(row[1]) == Some(self.appearance_count)
    }

    fn width() -> (w: usize) {
        2
    }

    fn read(row: &Vec<SqlValue>) -> (r: Result<Self, DbError>) {
        let name = match col_text(row, 0) {
            Ok(v) => v,
            Err(e) => return Err(e),
        };
        let appearance_count = match col_i64(row, 1) {
            Ok(v) => v,
            Err(e) => return Err(e),
        };
        Ok(TopSingerRow { name, appearance_count })
    }
}

/// A page snapshot row: `id, page_type, ranking_type, search_keyword,
/// page_number, url, title, crawled_at`.
pub struct SnapshotRow {
    pub id: i64,
    pub page_type: String,
    pub ranking_type: Option<String>,
    pub search_keyword: Option<String>,
    pub page_number: i32,
    pub url: Option<String>,
    pub title: Option<String>,
    pub crawled_at: Option<String>,
}

impl RowRecord for SnapshotRow {
    open spec fn width_spec() -> nat {
        8
    }

    open spec fn readable(row: Seq<SqlValue>) -> bool {
        &&& int_col(row[0]) is Some
        &&& text_col(row[1]) is Some
        &&& opt_text_col(row[2]) is Some
        &&& opt_text_col(row[3]) is Some
        &&& i32_col(row[4]) is Some
        &&& opt_text_col(row[5]) is Some
        &&& opt_text_col(row[6]) is Some
        &&& opt_text_col(row[7]) is Some
    }

    open spec fn read_from(&self, row: Seq<SqlValue>) -> bool {
        &&& int_col(row[0]) == Some(self.id)
        &&& text_col(row[1]) == Some(self.page_type@)
        &&& opt_text_col(row[2]) == Some(opt_str_view(self.ranking_type))
        &&& opt_text_col(row[3]) == Some(opt_str_view(self.search_keyword))
        &&& i32_col(row[4]) == Some(self.page_number)
        &&& opt_text_col(row[5]) == Some(opt_str_view(self.url))
        &&& opt_text_col(row[6]) == Some(opt_str_view(self.title))
        &&& opt_text_col(row[7]) == Some(opt_str_view(self.crawled_at))
    }

    fn width() -> (w: usize) {
        8
    }

    fn read(row: &Vec<SqlValue>) -> (r: Result<Self, DbError>) {
        let id = match col_i64(row, 0) {
            Ok(v) => v,
            Err(e) => return Err(e),
        };
        let page_type = match col_text(row, 1) {
            Ok(v) => v,
            Err(e) => return Err(e),
        };
        let ranking_type = match col_opt_text(row, 2) {
            Ok(v) => v,
            Err(e) => return Err(e),
        };
        let search_keyword = match col_opt_text(row, 3) {
            Ok(v) => v,
            Err(e) => return Err(e),
        };
        let page_number = match col_i32(row, 4) {
            Ok(v) => v,
            Err(e) => return Err(e),
        };
        let url = match col_opt_text(row, 5) {
            Ok(v) => v,
            Err(e) => return Err(e),
        };
        let title = match col_opt_text(row, 6) {
            Ok(v) => v,
            Err(e) => return Err(e),
        };
        let crawled_at = match col_opt_text(row, 7) {
            Ok(v) => v,
            Err(e) => return Err(e),
        };
        Ok(SnapshotRow { id, page_type, ranking_type, search_keyword, page_number, url, title, crawled_at })
    }
}

/// Whether every row of `rows` has `width` values.
pub open spec fn all_width(rows: Seq<Vec<SqlValue>>, width: nat) -> bool {
    forall|i: int| 0 <= i < rows.len() ==> (#[trigger] rows[i])@.len() == width
}

/// Reads every row of a result, failing on the first row that cannot be
/// read.
pub fn read_rows<T: RowRecord>(rows: &Vec<Vec<SqlValue>>) -> (r: Result<Vec<T>, DbError>)
    requires
        all_width(rows@, T::width_spec()),
    ensures
        match r {
            Ok(v) => v@.len() == rows@.len() && forall|i: int|
                0 <= i < rows@.len() ==> T::readable(rows@[i]@) && (#[trigger] v@[i]).read_from(rows@[i]@),
            Err(e) => e.kind is ColumnType && exists|i: int| 0 <= i < rows@.len() && !T::readable(#[trigger] rows@[i]@),
        },
{
    let mut out: Vec<T> = Vec::new();
    let mut i: usize = 0;
    while i < rows.len()
        invariant
            i <= rows@.len(),
            out@.len() == i,
            all_width(rows@, T::width_spec()),
            forall|j: int| 0 <= j < i ==> #[trigger] T::readable(rows@[j]@),
            forall|j: int| 0 <= j < i ==> (#[trigger] out@[j]).read_from(rows@[j]@),
        decreases rows.len() - i,
    {
        match T::read(&rows[i]) {
            Ok(v) => {
                let ghost prev = out@;
                out.push(v);
                assert forall|j: int| 0 <= j < i + 1 implies (#[trigger] out@[j]).read_from(rows@[j]@) by {
                    if j < i {
                        assert(out@[j] == prev[j]);
                    }
                }
            },
            Err(e) => {
                assert(!T::readable(rows@[i as int]@));
                return Err(e);
            },
        }
        i = i + 1;
    }
    Ok(out)
}

/// Reads the first row of a result, if there is one and it can be read.
pub fn read_first<T: RowRecord>(rows: &Vec<Vec<SqlValue>>) -> (r: Option<T>)
    requires
        all_width(rows@, T::width_spec()),
    ensures
        match r {
            Some(v) => rows@.len() > 0 && T::readable(rows@[0]@) && v.read_from(rows@[0]@),
            None => rows@.len() == 0 || !T::readable(rows@[0]@),
        },
{
    if rows.len() == 0 {
        None
    } else {
        match T::read(&rows[0]) {
            Ok(v) => Some(v),
            Err(_) => None,
        }
    }
}

/// The integer in the first column of the first row of a result (a
/// `COUNT(*)` or a row id).
pub fn first_i64(rows: &Vec<Vec<SqlValue>>) -> (r: Result<i64, DbError>)
    requires
        all_width(rows@, 1),
    ensures
        match r {
            Ok(v) => rows@.len() > 0 && int_col(rows@[0]@[0]) == Some(v),
            Err(e) => e.context is None && if rows@.len() == 0 {
                e.kind is NoRows
            } else {
                int_col(rows@[0]@[0]) is None && e.kind is ColumnType
            },
        },
{
    if rows.len() == 0 {
        Err(DbError { context: None, kind: DbErrorKind::NoRows })
    } else {
        assert(rows@[0]@.len() == 1);
        col_i64(&rows[0], 0)
    }
}

} // verus!
