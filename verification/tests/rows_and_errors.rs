use gequke::database::{col_i32, col_opt_text, Database, DbErrorKind};
use gequke::rows::{first_i64, read_first, read_rows, RowRecord, SingerRow, TopSingerRow};
use gequke::sqlite::SqlValue;
use gequke::timeargs::{span_days_from, TimeArgError};

fn top_singer(name: &str, count: i64) -> Vec<SqlValue> {
    vec![SqlValue::Text(name.to_string()), SqlValue::Integer(count)]
}

#[test]
fn counts_come_from_the_first_column() {
    assert!(matches!(first_i64(&vec![vec![SqlValue::Integer(5)]]), Ok(5)));
    match first_i64(&Vec::new()) {
        Err(e) => {
            assert!(matches!(e.kind, DbErrorKind::NoRows));
            assert!(e.context.is_none());
        }
        Ok(_) => panic!("no row gives no count"),
    }
    match first_i64(&vec![vec![SqlValue::Text("5".to_string())]]) {
        Err(e) => assert!(matches!(e.kind, DbErrorKind::ColumnType { index: 0 })),
        Ok(_) => panic!("text is no count"),
    }
}

#[test]
fn rows_are_read_by_column_type() {
    let rows = vec![top_singer("周杰伦", 3), top_singer("林俊杰", 1)];
    let read: Vec<TopSingerRow> = match read_rows(&rows) {
        Ok(v) => v,
        Err(_) => panic!("readable rows"),
    };
    assert_eq!(read.len(), 2);
    assert_eq!((read[1].name.as_str(), read[1].appearance_count), ("林俊杰", 1));
    let bad = vec![top_singer("a", 1), vec![SqlValue::Null, SqlValue::Integer(1)]];
    match read_rows::<TopSingerRow>(&bad) {
        Err(e) => assert!(matches!(e.kind, DbErrorKind::ColumnType { index: 0 })),
        Ok(_) => panic!("a null name is unreadable"),
    }
    assert_eq!(TopSingerRow::width(), 2);
    assert_eq!(SingerRow::width(), 5);
}

#[test]
fn first_row_or_nothing() {
    let good = vec![vec![
        SqlValue::Integer(1),
        SqlValue::Text("周杰伦".to_string()),
        SqlValue::Null,
        SqlValue::Text("/s".to_string()),
        SqlValue::Text("2026-01-01 00:00:00".to_string()),
    ]];
    let s: SingerRow = read_first(&good).expect("row");
    assert_eq!(s.name, "周杰伦");
    assert_eq!(s.avatar_url, None);
    assert_eq!(s.songs_url, Some("/s".to_string()));
    let real = vec![vec![SqlValue::Integer(1), SqlValue::Real, SqlValue::Null, SqlValue::Null, SqlValue::Null]];
    assert!(read_first::<SingerRow>(&real).is_none());
    assert!(read_first::<SingerRow>(&Vec::new()).is_none());
}

#[test]
fn columns_check_their_type() {
    let row = vec![SqlValue::Integer(3_000_000_000), SqlValue::Blob(vec![1, 2])];
    match col_i32(&row, 0) {
        Err(e) => assert!(matches!(e.kind, DbErrorKind::ColumnType { index: 0 })),
        Ok(_) => panic!("too large for an i32"),
    }
    assert!(col_opt_text(&row, 1).is_err());
    assert!(matches!(col_i32(&vec![SqlValue::Integer(-7)], 0), Ok(-7)));
}

#[test]
fn units_other_than_days_weeks_months_are_refused() {
    match span_days_from("7x", Some("7".to_string()), "x") {
        Err(TimeArgError::UnsupportedUnit(u)) => assert_eq!(u, "x"),
        _ => panic!("unknown unit accepted"),
    }
    assert!(matches!(span_days_from("7w", Some("7".to_string()), "w"), Ok(49)));
    assert!(matches!(span_days_from("", None, "d"), Err(TimeArgError::InvalidFormat(_))));
}

#[test]
fn sqlite_errors_carry_their_message() {
    match Database::new("/nonexistent_dir_for_gequke/z.db") {
        Err(e) => match e.kind {
            DbErrorKind::Sqlite(message) => assert!(!message.is_empty()),
            _ => panic!("an SQLite error expected"),
        },
        Ok(_) => panic!("opened a file in a missing directory"),
    }
}

#[test]
fn span_bounds_are_utc_texts() {
    use_span_bounds();
}

fn use_span_bounds() {
    // 2026-01-08 00:00:00 UTC
    let now = 1767830400;
    match gequke::timeargs::span_bounds(now, 7) {
        Some((from, to)) => {
            assert_eq!(from, "2026-01-01 00:00:00");
            assert_eq!(to, "2026-01-08 00:00:00");
        }
        None => panic!("bounds expected"),
    }
    assert!(gequke::timeargs::span_bounds(now, 9223372036854775807i128 * 30).is_none());
    assert!(gequke::timeargs::span_bounds(0, 0).is_some());
}
