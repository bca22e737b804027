use gequke::crawlers::download::{tally_downloads, DownloadAction, DownloadSession};
use gequke::crawlers::ranking::pages_in_range;
use gequke::dom::Document;

const SONG_PAGE: &str = r#"<html><head>
<script>window.mp3_id = '9'; window.play_id = 'abc'; window.mp3_title = '晴天'; window.mp3_author = '周杰伦'; window.mp3_cover = 'http://img/c.jpg'; window.mp3_extra_url = 'http://spare/x';</script>
</head><body><div id="content-lrc2">la la</div></body></html>"#;

const BARE_PAGE: &str = r#"<html><head>
<script>window.mp3_id = '9'; window.play_id = 'p1'; window.mp3_title = 'a/b?';</script>
</head><body></body></html>"#;

#[test]
fn session_starts_with_the_song_page() {
    let (s, a) = DownloadSession::start(5863335, true);
    match a {
        DownloadAction::FetchSongPage { url } => assert_eq!(url, "https://www.gequke.com/song/5863335"),
        _ => panic!("first action must fetch the page"),
    }
    assert!(!s.is_finished());
}

#[test]
fn session_fails_when_the_page_cannot_be_read() {
    let (mut s, _) = DownloadSession::start(1, true);
    let a = s.on_song_page(Err("timeout".to_string()));
    assert!(matches!(a, DownloadAction::Finish));
    assert!(s.is_finished());
    let r = s.into_result();
    assert!(!r.success);
    assert_eq!(r.error, Some("获取歌曲页面失败: timeout".to_string()));
    assert!(r.song_info.is_none());
}

#[test]
fn session_fails_without_play_id() {
    let doc = Document::parse("<html><body>login</body></html>");
    let (mut s, _) = DownloadSession::start(1, true);
    let a = s.on_song_page(Ok(&doc));
    assert!(matches!(a, DownloadAction::Finish));
    let r = s.into_result();
    assert!(!r.success);
    assert_eq!(r.error, Some("未找到 play_id，可能需要登录".to_string()));
}

#[test]
fn session_full_download() {
    let doc = Document::parse(SONG_PAGE);
    let (mut s, _) = DownloadSession::start(7, true);
    match s.on_song_page(Ok(&doc)) {
        DownloadAction::FetchCover { url } => assert_eq!(url, "http://img/c.jpg"),
        _ => panic!("cover expected"),
    }
    assert_eq!(s.shown_names(), Some(("晴天".to_string(), "周杰伦".to_string())));
    match s.on_cover(Ok(vec![1, 2, 3])) {
        DownloadAction::SaveCover { file_name, bytes } => {
            assert_eq!(file_name, "晴天-周杰伦.jpg");
            assert_eq!(bytes, vec![1, 2, 3]);
        }
        _ => panic!("the cover must be saved"),
    }
    match s.on_cover_saved(Ok("downloads/晴天-周杰伦.jpg".to_string())) {
        DownloadAction::RequestAudioUrl { play_id, song_id } => {
            assert_eq!(play_id, "abc");
            assert_eq!(song_id, 7);
        }
        _ => panic!("audio address request expected"),
    }
    match s.on_audio_url(Ok(Some("http://audio/x.mp3".to_string()))) {
        DownloadAction::DownloadAudio { url, file_name } => {
            assert_eq!(url, "http://audio/x.mp3");
            assert_eq!(file_name, "晴天-周杰伦.mp3");
        }
        _ => panic!("audio download expected"),
    }
    match s.on_audio(Ok("downloads/晴天-周杰伦.mp3".to_string())) {
        DownloadAction::SaveLyrics { file_name, lyrics } => {
            assert_eq!(file_name, "晴天-周杰伦.lrc");
            assert_eq!(lyrics, "la la");
        }
        _ => panic!("lyrics expected"),
    }
    let a = s.on_lyrics(Ok("downloads/晴天-周杰伦.lrc".to_string()));
    assert!(matches!(a, DownloadAction::Finish));
    let r = s.into_result();
    assert!(r.success);
    assert_eq!(r.error, None);
    assert_eq!(r.mp3_path, Some("downloads/晴天-周杰伦.mp3".to_string()));
    assert_eq!(r.lrc_path, Some("downloads/晴天-周杰伦.lrc".to_string()));
    let info = r.song_info.expect("song info");
    assert_eq!(info.song_id, 7);
    assert_eq!(info.title, "晴天");
    assert_eq!(info.artist, "周杰伦");
    assert_eq!(info.cover_url, Some("http://img/c.jpg".to_string()));
    assert_eq!(info.play_id, Some("abc".to_string()));
}

#[test]
fn session_without_cover_and_without_audio_address() {
    let doc = Document::parse(SONG_PAGE);
    let (mut s, _) = DownloadSession::start(7, false);
    assert!(matches!(s.on_song_page(Ok(&doc)), DownloadAction::RequestAudioUrl { .. }));
    assert!(matches!(s.on_audio_url(Ok(None)), DownloadAction::Finish));
    let r = s.into_result();
    assert!(!r.success);
    assert_eq!(r.error, Some("API 未返回音频链接，备用链接: http://spare/x".to_string()));
    assert!(r.song_info.is_some());
}

#[test]
fn session_audio_failures() {
    let doc = Document::parse(BARE_PAGE);
    let (mut s, _) = DownloadSession::start(3, true);
    assert!(matches!(s.on_song_page(Ok(&doc)), DownloadAction::RequestAudioUrl { .. }));
    assert!(matches!(s.on_audio_url(Err("refused".to_string())), DownloadAction::Finish));
    let r = s.into_result();
    assert_eq!(r.error, Some("获取MP3链接失败: refused".to_string()));
    let info = r.song_info.expect("song info");
    assert_eq!(info.title, "a/b?");
    assert_eq!(info.artist, "Unknown");

    let (mut s, _) = DownloadSession::start(3, true);
    s.on_song_page(Ok(&doc));
    match s.on_audio_url(Ok(Some("u".to_string()))) {
        DownloadAction::DownloadAudio { file_name, .. } => assert_eq!(file_name, "ab-Unknown.mp3"),
        _ => panic!("audio download expected"),
    }
    assert!(matches!(s.on_audio(Err("disk full".to_string())), DownloadAction::Finish));
    let r = s.into_result();
    assert!(!r.success);
    assert_eq!(r.error, Some("下载 MP3 失败: disk full".to_string()));
}

#[test]
fn session_without_lyrics_finishes_after_the_audio() {
    let doc = Document::parse(BARE_PAGE);
    let (mut s, _) = DownloadSession::start(3, false);
    s.on_song_page(Ok(&doc));
    s.on_audio_url(Ok(Some("u".to_string())));
    assert!(matches!(s.on_audio(Ok("p.mp3".to_string())), DownloadAction::Finish));
    let r = s.into_result();
    assert!(r.success);
    assert_eq!(r.lrc_path, None);
    assert_eq!(r.mp3_path, Some("p.mp3".to_string()));
}

#[test]
fn session_goes_on_when_the_cover_cannot_be_fetched() {
    let doc = Document::parse(SONG_PAGE);
    let (mut s, _) = DownloadSession::start(7, true);
    assert!(matches!(s.on_song_page(Ok(&doc)), DownloadAction::FetchCover { .. }));
    assert!(matches!(s.on_cover(Err("timeout".to_string())), DownloadAction::RequestAudioUrl { .. }));
    assert!(!s.is_finished());
}

#[test]
fn page_ranges_are_inclusive() {
    assert_eq!(pages_in_range(2, 5), vec![2, 3, 4, 5]);
    assert_eq!(pages_in_range(3, 3), vec![3]);
    assert!(pages_in_range(4, 3).is_empty());
    assert_eq!(pages_in_range(i32::MAX - 1, i32::MAX), vec![i32::MAX - 1, i32::MAX]);
}

#[test]
fn batch_tally_counts_successes_and_failures() {
    let t = tally_downloads(&vec![true, false, true, true, false]);
    assert_eq!(t.succeeded, 3);
    assert_eq!(t.failed, 2);
    let empty = tally_downloads(&Vec::new());
    assert_eq!(empty.succeeded, 0);
    assert_eq!(empty.failed, 0);
}
