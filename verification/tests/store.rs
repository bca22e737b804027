use gequke::crawlers::download::{DownloadResult, DownloadSongInfo};
use gequke::crawlers::homepage::{HomepageData, HotSinger, RankedKeyword, SearchKeywordItem};
use gequke::crawlers::ranking::{Pagination, RankingPageData, SingerRank, SongRank};
use gequke::crawlers::search::{SearchResult, SongSearchResult};
use gequke::database::{Database, DbErrorKind, CTX_CONNECT, CTX_INSERT_DOWNLOAD};
use gequke::models::{DownloadRecord, PageItem, PageSnapshot, RankingItem, SearchKeyword, Singer, Song};
use gequke::records::{record_download_file, record_downloaded_song, record_homepage, record_ranking_page, record_search};

fn fresh_db(tag: &str) -> Database {
    let nanos = std::time::SystemTime::now()
        .duration_since(std::time::UNIX_EPOCH)
        .expect("clock")
        .as_nanos();
    let path = format!("/tmp/gequke_test_{}_{}.db", tag, nanos);
    match Database::new(&path) {
        Ok(db) => db,
        Err(_) => panic!("cannot open {}", path),
    }
}

fn song(song_id: i64, title: &str, cover: Option<&str>) -> Song {
    Song {
        song_id,
        title: title.to_string(),
        artist: "周杰伦".to_string(),
        cover_url: cover.map(|c| c.to_string()),
        mp3_url: None,
        play_id: None,
        lrc: None,
        extra_url: None,
    }
}

fn pagination(page: i32) -> Pagination {
    Pagination {
        current_page: page,
        total_pages: 1,
        total_songs: 0,
        has_prev: false,
        has_next: false,
        first_page_url: None,
        prev_page_url: None,
        next_page_url: None,
        last_page_url: None,
    }
}

#[test]
fn new_database_is_empty() {
    let mut db = fresh_db("empty");
    let s = db.get_stats().ok().expect("stats");
    assert_eq!(
        (s.total_singers, s.total_songs, s.total_rankings, s.total_keywords, s.total_downloads, s.total_page_snapshots, s.total_page_items),
        (0, 0, 0, 0, 0, 0, 0)
    );
    assert!(db.init_tables().is_ok());
    assert!(db.get_song_by_id(1).ok().expect("query").is_none());
    assert!(db.get_singer_by_name("nobody").ok().expect("query").is_none());
}

#[test]
fn unreachable_database_reports_the_connection() {
    match Database::new("/nonexistent_dir_for_gequke/x/y.db") {
        Ok(_) => panic!("opened a file in a missing directory"),
        Err(e) => {
            assert_eq!(e.context.as_deref(), Some(CTX_CONNECT));
            assert!(matches!(e.kind, DbErrorKind::Sqlite(_)));
        }
    }
}

#[test]
fn singers_are_kept_once_per_name() {
    let mut db = fresh_db("singers");
    let a = Singer { name: "周杰伦".to_string(), avatar_url: None, songs_url: Some("/s/1".to_string()) };
    let id1 = db.insert_singer(&a).ok().expect("insert");
    let b = Singer { name: "周杰伦".to_string(), avatar_url: Some("a.jpg".to_string()), songs_url: None };
    let id2 = db.insert_singer(&b).ok().expect("update");
    assert_eq!(id1, id2);
    let row = db.get_singer_by_name("周杰伦").ok().expect("query").expect("row");
    assert_eq!(row.id, id1);
    assert_eq!(row.avatar_url, Some("a.jpg".to_string()));
    assert_eq!(row.songs_url, None);
    assert!(row.created_at.is_some());
    assert_eq!(db.get_all_singers(20).ok().expect("list").len(), 1);
}

#[test]
fn songs_keep_known_fields() {
    let mut db = fresh_db("songs");
    let id1 = db.insert_song(&song(5863335, "晴天", Some("c.jpg"))).ok().expect("insert");
    let id2 = db.insert_song(&song(5863335, "晴天 (Live)", None)).ok().expect("update");
    assert_eq!(id1, id2);
    let row = db.get_song_by_id(5863335).ok().expect("query").expect("row");
    assert_eq!(row.id, id1);
    assert_eq!(row.song_id, 5863335);
    assert_eq!(row.title, "晴天 (Live)");
    assert_eq!(row.artist, "周杰伦");
    assert_eq!(row.cover_url, Some("c.jpg".to_string()));
    db.insert_song(&song(2, "稻香", None)).ok().expect("insert");
    assert_eq!(db.get_all_songs(1).ok().expect("list").len(), 1);
    assert_eq!(db.get_all_songs(10).ok().expect("list").len(), 2);
}

#[test]
fn ranking_entries_link_stored_items() {
    let mut db = fresh_db("rankings");
    db.insert_song(&song(7, "晴天", None)).ok().expect("song");
    db.insert_singer(&Singer { name: "林俊杰".to_string(), avatar_url: None, songs_url: None }).ok().expect("singer");
    let song_item = RankingItem { ranking_type: "new".to_string(), rank: 1, item_id: Some(7), item_name: None, item_type: "song".to_string() };
    let singer_item = RankingItem { ranking_type: "singer".to_string(), rank: 2, item_id: None, item_name: Some("林俊杰".to_string()), item_type: "singer".to_string() };
    let missing = RankingItem { ranking_type: "new".to_string(), rank: 3, item_id: Some(404), item_name: None, item_type: "song".to_string() };
    let r1 = db.insert_ranking_item(&song_item).ok().expect("ranking");
    let r2 = db.insert_ranking_item(&singer_item).ok().expect("ranking");
    let r3 = db.insert_ranking_item(&missing).ok().expect("ranking");
    assert!(r1 < r2 && r2 < r3);
    let new_rows = db.get_all_rankings(Some("new"), 20).ok().expect("list");
    assert_eq!(new_rows.len(), 2);
    let first = new_rows.iter().find(|r| r.rank == 1).expect("rank 1");
    assert_eq!(first.song_id, Some(7));
    assert_eq!(first.title, Some("晴天".to_string()));
    let third = new_rows.iter().find(|r| r.rank == 3).expect("rank 3");
    assert_eq!(third.song_id, None);
    let all = db.get_all_rankings(None, 20).ok().expect("list");
    assert_eq!(all.len(), 3);
    let singer_row = all.iter().find(|r| r.ranking_type == "singer").expect("singer entry");
    assert_eq!(singer_row.singer_name, Some("林俊杰".to_string()));
}

#[test]
fn keywords_downloads_and_counts() {
    let mut db = fresh_db("counts");
    let k = SearchKeyword { keyword: "晴天".to_string(), source: "homepage".to_string(), rank: Some(1) };
    let k1 = db.insert_search_keyword(&k).ok().expect("keyword");
    let other = SearchKeyword { keyword: "稻香".to_string(), source: "hot".to_string(), rank: Some(2) };
    let k2 = db.insert_search_keyword(&other).ok().expect("keyword");
    assert_eq!(k2, k1 + 1);
    assert_eq!(db.insert_song(&song(1, "晴天", None)).ok(), Some(1));
    let d = DownloadRecord { song_id: 1, file_path: "downloads/a.mp3".to_string(), file_size: Some(4096), downloaded_at: None };
    db.insert_download_record(&d).ok().expect("download");
    let downloads = db.get_all_downloads(20).ok().expect("list");
    assert_eq!(downloads.len(), 1);
    assert_eq!(downloads[0].file_path, "downloads/a.mp3");
    assert_eq!(downloads[0].file_size, Some(4096));
    assert_eq!(downloads[0].real_song_id, Some(1));
    assert_eq!(downloads[0].title, Some("晴天".to_string()));
    let s = db.get_stats().ok().expect("stats");
    assert_eq!((s.total_keywords, s.total_downloads, s.total_songs), (2, 1, 1));
}

#[test]
fn snapshots_items_and_appearances() {
    let mut db = fresh_db("snapshots");
    let song_db_id = db.insert_song(&song(5, "晴天", None)).ok().expect("song");
    let singer_id = db.insert_singer(&Singer { name: "周杰伦".to_string(), avatar_url: None, songs_url: None }).ok().expect("singer");
    let home = PageSnapshot { page_type: "homepage".to_string(), ranking_type: None, search_keyword: None, page_number: 1, url: None, title: Some("主页".to_string()) };
    let rank = PageSnapshot { page_type: "ranking".to_string(), ranking_type: Some("new".to_string()), search_keyword: None, page_number: 2, url: None, title: Some("新歌榜".to_string()) };
    let h = db.insert_page_snapshot(&home).ok().expect("snapshot");
    let r = db.insert_page_snapshot(&rank).ok().expect("snapshot");
    let items = vec![
        PageItem { page_snapshot_id: h, item_type: "song".to_string(), item_id: Some(song_db_id), position: 1, extra_data: None },
        PageItem { page_snapshot_id: r, item_type: "song".to_string(), item_id: Some(song_db_id), position: 1, extra_data: Some("{}".to_string()) },
        PageItem { page_snapshot_id: r, item_type: "song".to_string(), item_id: Some(song_db_id), position: 2, extra_data: None },
        PageItem { page_snapshot_id: h, item_type: "singer".to_string(), item_id: Some(singer_id), position: 1, extra_data: None },
    ];
    assert_eq!(db.insert_page_items(&items).ok(), Some(4));
    assert_eq!(db.insert_page_items(&[]).ok(), Some(0));

    let st = db.get_song_appearance_stats(5).ok().expect("stats");
    assert_eq!((st.song_id, st.total_count, st.homepage_count, st.ranking_count), (5, 3, 1, 2));
    let sg = db.get_singer_appearance_stats("周杰伦").ok().expect("stats");
    assert_eq!((sg.singer_name.as_str(), sg.total_count, sg.homepage_count, sg.ranking_count), ("周杰伦", 1, 1, 0));

    let top = db.get_top_appearing_songs(10, None, None).ok().expect("top");
    assert_eq!(top.len(), 1);
    assert_eq!((top[0].song_id, top[0].appearance_count), (5, 3));
    let top = db.get_top_appearing_songs(10, Some("9999-01-01 00:00:00"), None).ok().expect("top");
    assert!(top.is_empty());
    let top = db.get_top_appearing_singers(10, Some("2000-01-01 00:00:00"), Some("9999-01-01 00:00:00")).ok().expect("top");
    assert_eq!(top.len(), 1);
    assert_eq!((top[0].name.as_str(), top[0].appearance_count), ("周杰伦", 1));

    let snaps = db.get_page_snapshots(Some("ranking"), None, 20, None, None).ok().expect("snapshots");
    assert_eq!(snaps.len(), 1);
    assert_eq!(snaps[0].page_number, 2);
    assert_eq!(snaps[0].ranking_type, Some("new".to_string()));
    assert_eq!(db.get_page_snapshots(None, None, 20, None, None).ok().expect("snapshots").len(), 2);
    assert_eq!(db.get_page_snapshots(None, None, 1, None, None).ok().expect("snapshots").len(), 1);
    assert!(db.get_page_snapshots(Some("search"), None, 20, None, None).ok().expect("snapshots").is_empty());
    assert!(db.get_page_snapshots(None, None, 20, None, Some("2000-01-01")).ok().expect("snapshots").is_empty());
    assert_eq!(db.get_page_snapshots(Some("ranking"), Some("new"), 20, None, None).ok().expect("snapshots").len(), 1);
    assert!(db.get_page_snapshots(Some("ranking"), Some("surge"), 20, None, None).ok().expect("snapshots").is_empty());
}

#[test]
fn crawls_are_recorded() {
    let mut db = fresh_db("crawls");
    let home = HomepageData {
        latest_searches: vec![
            SearchKeywordItem { keyword: "晴天".to_string(), url: "/ss/1".to_string() },
            SearchKeywordItem { keyword: "稻香".to_string(), url: "/ss/2".to_string() },
        ],
        hot_keywords: vec![RankedKeyword { rank: 1, keyword: "晴天".to_string(), url: "/ss/1".to_string() }],
        hot_singers: vec![
            HotSinger { rank: 1, name: "周杰伦".to_string(), url: "/singer/1".to_string() },
            HotSinger { rank: 2, name: "林俊杰".to_string(), url: "/singer/2".to_string() },
        ],
    };
    let hc = record_homepage(&mut db, &home).ok().expect("homepage");
    assert_eq!((hc.latest_searches, hc.hot_keywords, hc.singers), (2, 1, 2));

    let songs_page = RankingPageData {
        ranking_name: "新歌榜".to_string(),
        songs: vec![SongRank { rank: 1, title: "晴天".to_string(), artist: "周杰伦".to_string(), song_id: 5, cover_url: "c".to_string(), song_url: "/song/5".to_string() }],
        singers: Vec::new(),
        pagination: pagination(1),
    };
    let c = record_ranking_page(&mut db, "new", &songs_page, 1, true).ok().expect("ranking");
    assert_eq!((c.singers, c.songs, c.rankings), (0, 1, 1));
    let c = record_ranking_page(&mut db, "surge", &songs_page, 1, false).ok().expect("ranking");
    assert_eq!((c.singers, c.songs, c.rankings), (0, 1, 1));

    let singers_page = RankingPageData {
        ranking_name: "歌手榜".to_string(),
        songs: Vec::new(),
        singers: vec![SingerRank { rank: 1, name: "周杰伦".to_string(), avatar_url: "a".to_string(), songs_url: "/s".to_string() }],
        pagination: pagination(1),
    };
    let c = record_ranking_page(&mut db, "singer", &singers_page, 1, true).ok().expect("ranking");
    assert_eq!((c.singers, c.songs, c.rankings), (1, 0, 1));

    let search = SearchResult {
        keyword: "晴天".to_string(),
        total_count: 1,
        songs: vec![SongSearchResult { position: 1, song_id: 5, title: "晴天".to_string(), artist: "周杰伦".to_string(), song_url: "/song/5".to_string() }],
    };
    assert_eq!(record_search(&mut db, "晴天", &search).ok(), Some(1));

    let s = db.get_stats().ok().expect("stats");
    assert_eq!(s.total_keywords, 3);
    assert_eq!(s.total_page_snapshots, 5);
    assert_eq!(s.total_page_items, 6);
    assert_eq!(s.total_singers, 2);
    assert_eq!(s.total_songs, 1);
    assert_eq!(s.total_rankings, 3);
    let st = db.get_song_appearance_stats(5).ok().expect("stats");
    assert_eq!((st.total_count, st.ranking_count, st.homepage_count), (3, 2, 0));
    let snaps = db.get_page_snapshots(Some("search"), None, 5, None, None).ok().expect("snapshots");
    assert_eq!(snaps[0].title, Some("搜索: 晴天".to_string()));
    assert_eq!(snaps[0].url, Some("https://www.gequke.com/ss/晴天".to_string()));
}

#[test]
fn downloads_are_recorded() {
    let mut db = fresh_db("downloads");
    let result = DownloadResult {
        success: true,
        mp3_path: Some("downloads/晴天-周杰伦.mp3".to_string()),
        lrc_path: None,
        error: None,
        song_info: Some(DownloadSongInfo { song_id: 1, title: "晴天".to_string(), artist: "周杰伦".to_string(), cover_url: None, play_id: Some("p".to_string()) }),
    };
    assert_eq!(record_downloaded_song(&mut db, &result).ok(), Some(true));
    match record_download_file(&mut db, 5, "downloads/晴天-周杰伦.mp3", Some(10)) {
        Err(e) => assert_eq!(e.context.as_deref(), Some(CTX_INSERT_DOWNLOAD)),
        Ok(_) => panic!("a download must name a stored song row"),
    }
    let id = record_download_file(&mut db, 1, "downloads/晴天-周杰伦.mp3", Some(10)).ok().expect("record");
    assert!(id >= 1);
    let rows = db.get_all_downloads(5).ok().expect("list");
    assert_eq!(rows[0].title, Some("晴天".to_string()));
    let none = DownloadResult { success: false, mp3_path: None, lrc_path: None, error: Some("x".to_string()), song_info: None };
    assert_eq!(record_downloaded_song(&mut db, &none).ok(), Some(false));
}
