use gequke::crawlers::download::{audio_url_from_body, ApiReplyError};
use gequke::crawlers::homepage::{RankedKeyword, SearchKeywordItem};
use gequke::records::{hot_keyword_record, latest_keyword_record};
use gequke::cli::{Cli, Commands, ConfigCommands};
use gequke::crawlers::homepage::HotSinger;
use gequke::crawlers::ranking::{SingerRank, SongRank};
use gequke::crawlers::search::SongSearchResult;
use gequke::display::{cookie_preview, or_dash, ranking_item_label, ranking_type_label, size_label};
use gequke::models::get_ranking_types;
use gequke::queries::{
    rankings_query, snapshots_query, top_singers_query, top_songs_query, RANKINGS_ALL,
    RANKINGS_OF_TYPE, SNAPSHOTS_ALL, SNAPSHOTS_SINCE_UNTIL, SNAPSHOTS_TYPE, SNAPSHOTS_TYPE_RANKING_UNTIL,
    SNAPSHOTS_TYPE_SINCE_UNTIL,
    TOP_SINGERS_UNTIL, TOP_SONGS_ALL, TOP_SONGS_BETWEEN, TOP_SONGS_SINCE,
};
use gequke::records::{
    download_record, homepage_snapshot, hot_singer_item, hot_singer_record, ranked_singer_item,
    ranked_singer_record, ranked_song_item, ranked_song_record, ranking_snapshot, search_snapshot,
    search_song_item, search_song_record, singer_ranking_item, song_ranking_item,
};
use gequke::rows::RankingRow;
use gequke::settings::{key_name, parse_config_key, ConfigKey};
use gequke::sqlite::SqlParam;
use gequke::timeargs::{parse_time_args, span_days, TimeArgError, TimeWindow};

fn param_texts(ps: &[SqlParam]) -> Vec<String> {
    ps.iter()
        .map(|p| match p {
            SqlParam::Null => "NULL".to_string(),
            SqlParam::Integer(i) => i.to_string(),
            SqlParam::Text(s) => format!("'{}'", s),
        })
        .collect()
}

fn json(text: &Option<String>) -> serde_json::Value {
    serde_json::from_str(text.as_ref().expect("extra data")).expect("valid JSON")
}

#[test]
fn homepage_records() {
    let s = homepage_snapshot();
    assert_eq!(s.page_type, "homepage");
    assert_eq!(s.page_number, 1);
    assert_eq!(s.url, Some("https://www.gequke.com/".to_string()));
    assert_eq!(s.title, Some("歌曲客主页".to_string()));
    assert!(s.ranking_type.is_none() && s.search_keyword.is_none());
    let h = HotSinger { rank: 4, name: "周杰伦".to_string(), url: "/singer/1".to_string() };
    let singer = hot_singer_record(&h);
    assert_eq!(singer.name, "周杰伦");
    assert_eq!(singer.avatar_url, None);
    assert_eq!(singer.songs_url, Some("/singer/1".to_string()));
    let item = hot_singer_item(10, 20, &h);
    assert_eq!((item.page_snapshot_id, item.item_id, item.position), (10, Some(20), 4));
    assert_eq!(item.item_type, "singer");
    assert_eq!(item.extra_data, Some("{\"url\":\"/singer/1\"}".to_string()));
}

#[test]
fn ranking_records() {
    let snap = ranking_snapshot("new", 3, "新歌榜");
    assert_eq!(snap.page_type, "ranking");
    assert_eq!(snap.ranking_type, Some("new".to_string()));
    assert_eq!(snap.page_number, 3);
    assert_eq!(snap.url, None);
    assert_eq!(snap.title, Some("新歌榜".to_string()));

    let song = SongRank {
        rank: 1,
        title: "晴天".to_string(),
        artist: "周杰伦".to_string(),
        song_id: 99,
        cover_url: "c.jpg".to_string(),
        song_url: "/song/99".to_string(),
    };
    let rec = ranked_song_record(&song);
    assert_eq!((rec.song_id, rec.title.as_str(), rec.artist.as_str()), (99, "晴天", "周杰伦"));
    assert_eq!(rec.cover_url, Some("c.jpg".to_string()));
    assert!(rec.mp3_url.is_none() && rec.play_id.is_none() && rec.lrc.is_none() && rec.extra_url.is_none());
    let r = song_ranking_item("new", &song);
    assert_eq!((r.ranking_type.as_str(), r.rank, r.item_id, r.item_type.as_str()), ("new", 1, Some(99), "song"));
    assert_eq!(r.item_name, None);
    let plain = ranked_song_item(5, 6, &song, false);
    assert_eq!(plain.extra_data, None);
    let detailed = ranked_song_item(5, 6, &song, true);
    assert_eq!((detailed.page_snapshot_id, detailed.item_id, detailed.position), (5, Some(6), 1));
    assert_eq!(
        json(&detailed.extra_data),
        json(&Some(r#"{"title": "晴天", "artist": "周杰伦", "cover_url": "c.jpg"}"#.to_string()))
    );

    let singer = SingerRank {
        rank: 2,
        name: "林俊杰".to_string(),
        avatar_url: "a.jpg".to_string(),
        songs_url: "/s/2".to_string(),
    };
    let srec = ranked_singer_record(&singer);
    assert_eq!(srec.avatar_url, Some("a.jpg".to_string()));
    assert_eq!(srec.songs_url, Some("/s/2".to_string()));
    let sr = singer_ranking_item("singer", &singer);
    assert_eq!((sr.item_id, sr.item_name.as_deref(), sr.item_type.as_str()), (None, Some("林俊杰"), "singer"));
    let si = ranked_singer_item(5, 8, &singer, true);
    assert_eq!(si.item_type, "singer");
    assert_eq!(json(&si.extra_data), json(&Some(r#"{"avatar_url": "a.jpg", "songs_url": "/s/2"}"#.to_string())));
    assert_eq!(ranked_singer_item(5, 8, &singer, false).extra_data, None);
}

#[test]
fn search_and_download_records() {
    let snap = search_snapshot("周 杰伦", "周杰伦");
    assert_eq!(snap.page_type, "search");
    assert_eq!(snap.search_keyword, Some("周杰伦".to_string()));
    assert_eq!(snap.url, Some("https://www.gequke.com/ss/周 杰伦".to_string()));
    assert_eq!(snap.title, Some("搜索: 周杰伦".to_string()));
    let s = SongSearchResult {
        position: 3,
        song_id: 11,
        title: "晴天".to_string(),
        artist: "周杰伦".to_string(),
        song_url: "/song/11".to_string(),
    };
    let rec = search_song_record(&s);
    assert_eq!(rec.song_id, 11);
    assert!(rec.cover_url.is_none());
    let item = search_song_item(1, 2, &s);
    assert_eq!(item.position, 3);
    assert_eq!(item.extra_data, Some("{\"song_url\":\"/song/11\"}".to_string()));
    let d = download_record(11, "downloads/a.mp3", Some(2048));
    assert_eq!((d.song_id, d.file_path.as_str(), d.file_size), (11, "downloads/a.mp3", Some(2048)));
    assert_eq!(d.downloaded_at, None);
}

#[test]
fn json_extra_data_escapes_text() {
    let h = HotSinger { rank: 1, name: "x".to_string(), url: "a\"b\\c".to_string() };
    assert_eq!(hot_singer_item(1, 1, &h).extra_data, Some("{\"url\":\"a\\\"b\\\\c\"}".to_string()));
}

#[test]
fn time_window_spans() {
    assert!(matches!(span_days("7d"), Ok(7)));
    assert!(matches!(span_days("2W"), Ok(14)));
    assert!(matches!(span_days("3m"), Ok(90)));
    assert!(matches!(span_days("0D"), Ok(0)));
    match span_days("7x") {
        Err(TimeArgError::InvalidFormat(s)) => assert_eq!(s, "7x"),
        _ => panic!("bad format accepted"),
    }
    match span_days("d7") {
        Err(TimeArgError::InvalidFormat(s)) => assert_eq!(s, "d7"),
        _ => panic!("bad format accepted"),
    }
    match span_days("99999999999999999999d") {
        Err(TimeArgError::InvalidNumber(s)) => assert_eq!(s, "99999999999999999999"),
        _ => panic!("overflowing number accepted"),
    }
    assert!(matches!(span_days("9223372036854775807m"), Ok(n) if n == 9223372036854775807i128 * 30));
}

#[test]
fn time_window_options() {
    match parse_time_args(Some("2026-01-01".to_string()), None, None) {
        Ok(TimeWindow::Between { from, to }) => {
            assert_eq!(from, Some("2026-01-01".to_string()));
            assert_eq!(to, None);
        }
        _ => panic!("bounds expected"),
    }
    assert!(matches!(
        parse_time_args(Some("a".to_string()), Some("b".to_string()), Some("1w".to_string())),
        Ok(TimeWindow::LastDays(7))
    ));
    assert!(matches!(parse_time_args(None, None, Some("week".to_string())), Err(TimeArgError::InvalidFormat(_))));
}

#[test]
fn query_selection() {
    let q = rankings_query(Some("new"), 20);
    assert_eq!(q.sql, RANKINGS_OF_TYPE);
    assert_eq!(param_texts(&q.params), vec!["'new'", "20"]);
    let q = rankings_query(None, 5);
    assert_eq!(q.sql, RANKINGS_ALL);
    assert_eq!(param_texts(&q.params), vec!["5"]);

    let q = top_songs_query(10, Some("a"), Some("b"));
    assert_eq!(q.sql, TOP_SONGS_BETWEEN);
    assert_eq!(param_texts(&q.params), vec!["'a'", "'b'", "10"]);
    let q = top_songs_query(10, Some("a"), None);
    assert_eq!(q.sql, TOP_SONGS_SINCE);
    assert_eq!(param_texts(&q.params), vec!["'a'", "10"]);
    let q = top_songs_query(10, None, None);
    assert_eq!(q.sql, TOP_SONGS_ALL);
    let q = top_singers_query(3, None, Some("b"));
    assert_eq!(q.sql, TOP_SINGERS_UNTIL);
    assert_eq!(param_texts(&q.params), vec!["'b'", "3"]);

    let q = snapshots_query(Some("ranking"), None, 20, Some("a"), Some("b"));
    assert_eq!(q.sql, SNAPSHOTS_TYPE_SINCE_UNTIL);
    assert_eq!(param_texts(&q.params), vec!["'ranking'", "'a'", "'b'", "20"]);
    let q = snapshots_query(Some("ranking"), Some("new"), 20, None, Some("b"));
    assert_eq!(q.sql, SNAPSHOTS_TYPE_RANKING_UNTIL);
    assert_eq!(param_texts(&q.params), vec!["'ranking'", "'new'", "'b'", "20"]);
    let q = snapshots_query(Some("search"), None, 20, None, None);
    assert_eq!(q.sql, SNAPSHOTS_TYPE);
    let q = snapshots_query(None, None, 20, Some("a"), Some("b"));
    assert_eq!(q.sql, SNAPSHOTS_SINCE_UNTIL);
    let q = snapshots_query(None, None, 7, None, None);
    assert_eq!(q.sql, SNAPSHOTS_ALL);
    assert_eq!(param_texts(&q.params), vec!["7"]);
}

#[test]
fn shown_values() {
    assert_eq!(or_dash(&Some("x".to_string())), "x");
    assert_eq!(or_dash(&None), "-");
    assert_eq!(size_label(Some(2048)), "2KB");
    assert_eq!(size_label(Some(1023)), "0KB");
    assert_eq!(size_label(Some(-2049)), "-2KB");
    assert_eq!(size_label(Some(i64::MIN)), format!("{}KB", i64::MIN / 1024));
    assert_eq!(size_label(None), "-");
    let types = get_ranking_types();
    assert_eq!(ranking_type_label(&types, "new"), "新歌榜");
    assert_eq!(ranking_type_label(&types, "old"), "old");
    let mut row = RankingRow {
        id: 1,
        ranking_type: "new".to_string(),
        rank: 1,
        crawled_at: None,
        song_id: Some(3),
        title: Some("晴天".to_string()),
        artist: None,
        singer_name: None,
    };
    assert_eq!(ranking_item_label(&row), "晴天");
    row.singer_name = Some("周杰伦".to_string());
    assert_eq!(ranking_item_label(&row), "周杰伦");
    row.singer_name = None;
    row.title = None;
    assert_eq!(ranking_item_label(&row), "-");
    assert_eq!(cookie_preview(""), "(未设置)");
    assert_eq!(cookie_preview("abc"), "abc...");
    assert_eq!(cookie_preview("0123456789abcdefghijXYZ"), "0123456789abcdefghij...");
}

#[test]
fn setting_keys() {
    for name in ["cookie", "db_path", "download_dir", "output_format", "user_agent", "timeout"] {
        let k = parse_config_key(name).expect("known key");
        assert_eq!(key_name(&k), name);
    }
    assert!(parse_config_key("proxy").is_none());
    assert!(matches!(parse_config_key("timeout"), Some(ConfigKey::Timeout)));
}

#[test]
fn command_values() {
    let cli = Cli { command: Commands::Config(ConfigCommands::Get { key: "cookie".to_string() }) };
    match cli.command {
        Commands::Config(ConfigCommands::Get { key }) => assert_eq!(key, "cookie"),
        _ => panic!("wrong command"),
    }
}

#[test]
fn homepage_keyword_records() {
    let l = latest_keyword_record(&SearchKeywordItem { keyword: "晴天".to_string(), url: "/ss/1".to_string() });
    assert_eq!((l.keyword.as_str(), l.source.as_str(), l.rank), ("晴天", "latest", None));
    let h = hot_keyword_record(&RankedKeyword { rank: 4, keyword: "稻香".to_string(), url: "/ss/2".to_string() });
    assert_eq!((h.keyword.as_str(), h.source.as_str(), h.rank), ("稻香", "hot", Some(4)));
}

#[test]
fn audio_address_from_the_reply_body() {
    assert!(matches!(audio_url_from_body(404, "not json"), Ok(None)));
    assert!(matches!(audio_url_from_body(200, "not json"), Err(ApiReplyError::NotJson)));
    match audio_url_from_body(200, r#"{"code":200,"data":{"url":"http://a/x.mp3"}}"#) {
        Ok(u) => assert_eq!(u, Some("http://a/x.mp3".to_string())),
        Err(_) => panic!("valid reply refused"),
    }
    assert!(matches!(audio_url_from_body(200, r#"{"code":500,"data":{"url":"x"}}"#), Ok(None)));
    assert!(matches!(audio_url_from_body(200, r#"{"code":"200","data":{"url":"x"}}"#), Ok(None)));
    assert!(matches!(audio_url_from_body(200, r#"{"code":200}"#), Ok(None)));
}
