use gequke::crawlers::download::{audio_extension, audio_url_from_reply, sanitize_filename, DownloadCrawler};
use gequke::crawlers::homepage::HomepageCrawler;
use gequke::crawlers::ranking::{RankingCrawler, RankingError};
use gequke::crawlers::search::SearchCrawler;
use gequke::dom::Document;
use gequke::models::{get_page_types, get_ranking_types};

const HOMEPAGE: &str = r##"<html><body>
<div class="ilingku_singerlist"><a href="/ss/a">  周杰伦 </a><a href="/ss/b">林俊杰</a><a>无链接</a></div>
<div class="card"><div class="card-body"><h6>其他</h6></div></div>
<div class="card"><div class="card-body"><h6>大家都在搜</h6><table class="table"><tbody>
<tr><td><span class="badge">1</span></td><td><a href="/ss/x">晴天</a></td></tr>
<tr><td><span class="badge">x</span></td><td><a href="/ss/y"> 稻香 </a></td></tr>
<tr><td>无徽章</td><td><a href="/ss/z">七里香</a></td></tr>
</tbody></table></div></div>
<div class="card"><div class="card-body"><h6>热门歌手榜</h6><table class="table"><tbody>
<tr><td><span class="badge"> 2 </span></td><td><a href="/singer/1">周杰伦</a></td></tr>
<tr><td><span class="badge">3</span></td><td><a href="/singer/2">邓紫棋</a></td></tr>
</tbody></table></div></div>
</body></html>"##;

const SONG_RANKING: &str = r##"<html><body>
<h1 class="text-light">新歌榜 (共200条)</h1>
<table id="myTable"><tbody>
<tr><td>1</td><td><img src="c1.jpg"></td><td><a href="/song/5863335">晴天</a></td><td> 周杰伦 </td></tr>
<tr><td>2</td><td></td><td><a href="/mv/7">无号</a></td><td>某人</td></tr>
<tr><td>3</td><td>不完整</td></tr>
</tbody></table>
<nav aria-label="Page navigation"><ul>
<li class="page-item"><a href="/top/new">首页</a></li>
<li class="page-item disabled"><a href="#">上一页</a></li>
<li class="page-item"><a href="/top/new?page=4">下一页</a></li>
<li class="page-item"><a href="/top/new?page=10">尾页</a></li>
</ul></nav>
</body></html>"##;

const SINGER_RANKING: &str = r##"<html><body>
<h1 class="text-light">歌手榜 (共50条)</h1>
<table id="myTable"><tbody>
<tr><td>1</td><td><a href="/singer/songs/1"><img src="a1.jpg"></a></td><td> 周杰伦 </td><td>x</td></tr>
<tr><td>2</td><td></td><td>林俊杰</td><td>y</td></tr>
</tbody></table>
<nav aria-label="Page navigation"><ul>
<li class="page-item disabled"><a href="#">上一页</a></li>
<li class="page-item"><a href="/singer/5">尾页</a></li>
</ul></nav>
</body></html>"##;

const SEARCH: &str = r##"<html><body>
<input id="s-input-line" value="周杰伦">
<h1 class="navbar-h1">标题</h1>
<div class="quote-warning">共找到 123 条结果</div>
<table id="myTables"><tbody>
<tr><td>1</td><td><a href="/song/111">晴天</a></td><td> 周杰伦 </td></tr>
<tr><td>2</td><td>不完整</td></tr>
<tr><td>x</td><td><a href="/other">七里香</a></td><td>周杰伦</td></tr>
</tbody></table>
</body></html>"##;

const SONG_PAGE: &str = r##"<html><head>
<script>var unrelated = 1;</script>
<script>window.mp3_id = '9'; window.play_id = 'abc'; window.mp3_title = '晴天'; window.mp3_author = '周杰伦'; window.mp3_cover = 'http://img/c.jpg'; window.mp3_extra_url = 'http://spare/x';</script>
</head><body><div id="content-lrc2">line1<br/>line2</div></body></html>"##;

#[test]
fn homepage_latest_searches() {
    let doc = Document::parse(HOMEPAGE);
    let c = HomepageCrawler::new(None, None);
    let s = c.extract_latest_searches(&doc);
    assert_eq!(s.len(), 3);
    assert_eq!(s[0].keyword, "周杰伦");
    assert_eq!(s[0].url, "/ss/a");
    assert_eq!(s[1].keyword, "林俊杰");
    assert_eq!(s[2].keyword, "无链接");
    assert_eq!(s[2].url, "");
}

#[test]
fn homepage_hot_keywords_and_singers() {
    let doc = Document::parse(HOMEPAGE);
    let c = HomepageCrawler::new(None, None);
    let k = c.extract_hot_keywords(&doc);
    assert_eq!(k.len(), 2);
    assert_eq!((k[0].rank, k[0].keyword.as_str(), k[0].url.as_str()), (1, "晴天", "/ss/x"));
    assert_eq!((k[1].rank, k[1].keyword.as_str(), k[1].url.as_str()), (0, "稻香", "/ss/y"));
    let h = c.extract_hot_singers(&doc);
    assert_eq!(h.len(), 2);
    assert_eq!((h[0].rank, h[0].name.as_str(), h[0].url.as_str()), (2, "周杰伦", "/singer/1"));
    assert_eq!((h[1].rank, h[1].name.as_str()), (3, "邓紫棋"));
    let all = c.extract_all(&doc);
    assert_eq!(all.latest_searches.len(), 3);
    assert_eq!(all.hot_keywords.len(), 2);
    assert_eq!(all.hot_singers.len(), 2);
}

#[test]
fn homepage_without_cards_gives_nothing() {
    let doc = Document::parse("<html><body><p>空</p></body></html>");
    let c = HomepageCrawler::new(Some("k=v".to_string()), Some("agent".to_string()));
    assert!(c.extract_all(&doc).hot_singers.is_empty());
    assert!(c.extract_hot_keywords(&doc).is_empty());
    assert_eq!(c.get_cookies(), Some("k=v".to_string()));
    assert_eq!(c.user_agent(), "agent");
}

#[test]
fn crawler_defaults() {
    let c = HomepageCrawler::new(None, None);
    assert_eq!(c.get_cookies(), None);
    assert_eq!(c.user_agent(), "Mozilla/5.0 (Windows NT 10.0; Win64; x64) AppleWebKit/537.36");
    let s = SearchCrawler::new(None, None);
    assert!(s.user_agent().ends_with("Chrome/131.0.0.0 Safari/537.36"));
    let d = DownloadCrawler::new("out", None, None);
    assert_eq!(d.output_dir(), "out");
}

#[test]
fn ranking_songs_page() {
    let doc = Document::parse(SONG_RANKING);
    let c = RankingCrawler::new(None, None);
    let (name, count) = c.extract_ranking_name(&doc);
    assert_eq!(name, "新歌榜");
    assert_eq!(count, 200);
    let songs = c.extract_songs(&doc);
    assert_eq!(songs.len(), 2);
    assert_eq!(songs[0].rank, 1);
    assert_eq!(songs[0].title, "晴天");
    assert_eq!(songs[0].artist, "周杰伦");
    assert_eq!(songs[0].song_id, 5863335);
    assert_eq!(songs[0].cover_url, "c1.jpg");
    assert_eq!(songs[0].song_url, "/song/5863335");
    assert_eq!(songs[1].song_id, 0);
    assert_eq!(songs[1].cover_url, "");
    let data = c.extract_all(&doc, 3);
    assert_eq!(data.ranking_name, "新歌榜");
    assert_eq!(data.songs.len(), 2);
    assert!(data.singers.is_empty());
}

#[test]
fn ranking_pagination() {
    let doc = Document::parse(SONG_RANKING);
    let c = RankingCrawler::new(None, None);
    let p = c.extract_pagination(&doc, 3);
    assert_eq!(p.current_page, 3);
    assert_eq!(p.total_pages, 10);
    assert_eq!(p.total_songs, 200);
    assert!(!p.has_prev);
    assert!(p.has_next);
    assert_eq!(p.first_page_url, Some("/top/new".to_string()));
    assert_eq!(p.prev_page_url, Some("#".to_string()));
    assert_eq!(p.next_page_url, Some("/top/new?page=4".to_string()));
    assert_eq!(p.last_page_url, Some("/top/new?page=10".to_string()));
}

#[test]
fn ranking_pagination_without_navigation() {
    let doc = Document::parse("<html><body><h1 class=\"text-light\">新歌榜 (共9条)</h1></body></html>");
    let c = RankingCrawler::new(None, None);
    let p = c.extract_pagination(&doc, 2);
    assert_eq!(p.current_page, 2);
    assert_eq!(p.total_pages, 1);
    assert_eq!(p.total_songs, 0);
    assert!(!p.has_prev && !p.has_next);
    assert_eq!(p.last_page_url, None);
}

#[test]
fn ranking_singers_page() {
    let doc = Document::parse(SINGER_RANKING);
    let c = RankingCrawler::new(None, None);
    let data = c.extract_all(&doc, 1);
    assert_eq!(data.ranking_name, "歌手榜");
    assert!(data.songs.is_empty());
    assert_eq!(data.singers.len(), 2);
    assert_eq!(data.singers[0].rank, 1);
    assert_eq!(data.singers[0].name, "周杰伦");
    assert_eq!(data.singers[0].avatar_url, "a1.jpg");
    assert_eq!(data.singers[0].songs_url, "/singer/songs/1");
    assert_eq!(data.singers[1].avatar_url, "");
    assert_eq!(data.pagination.total_pages, 5);
    assert_eq!(data.pagination.total_songs, 50);
}

#[test]
fn ranking_name_fallbacks() {
    let c = RankingCrawler::new(None, None);
    let none = Document::parse("<html><body></body></html>");
    assert_eq!(c.extract_ranking_name(&none), ("未知榜单".to_string(), 0));
    let plain = Document::parse("<html><body><h1 class=\"text-light\"> 飙升榜 </h1></body></html>");
    assert_eq!(c.extract_ranking_name(&plain), ("飙升榜".to_string(), 0));
}

#[test]
fn ranking_page_addresses() {
    let c = RankingCrawler::new(None, None);
    assert_eq!(c.ranking_page_url("singer", 1).ok(), Some("https://www.gequke.com/singer/".to_string()));
    assert_eq!(c.ranking_page_url("singer", 3).ok(), Some("https://www.gequke.com/singer/3".to_string()));
    assert_eq!(c.ranking_page_url("new", 1).ok(), Some("https://www.gequke.com/top/new".to_string()));
    assert_eq!(c.ranking_page_url("new", 0).ok(), Some("https://www.gequke.com/top/new".to_string()));
    assert_eq!(c.ranking_page_url("wwdj", 2).ok(), Some("https://www.gequke.com/top/wwdj?page=2".to_string()));
    match c.ranking_page_url("bogus", 1) {
        Err(RankingError::InvalidRankingType(t)) => assert_eq!(t, "bogus"),
        Ok(_) => panic!("unknown ranking type accepted"),
    }
}

#[test]
fn search_page() {
    let doc = Document::parse(SEARCH);
    let c = SearchCrawler::new(None, None);
    let r = c.extract_all(&doc);
    assert_eq!(r.keyword, "周杰伦");
    assert_eq!(r.total_count, 123);
    assert_eq!(r.songs.len(), 2);
    assert_eq!(r.songs[0].position, 1);
    assert_eq!(r.songs[0].song_id, 111);
    assert_eq!(r.songs[0].title, "晴天");
    assert_eq!(r.songs[0].artist, "周杰伦");
    assert_eq!(r.songs[0].song_url, "/song/111");
    assert_eq!(r.songs[1].position, 0);
    assert_eq!(r.songs[1].song_id, 0);
    assert_eq!(c.search_url("周杰伦"), "https://www.gequke.com/ss/周杰伦");
}

#[test]
fn search_keyword_fallback_and_missing_count() {
    let doc = Document::parse("<html><body><h1 class=\"navbar-h1\"> 稻香 </h1></body></html>");
    let c = SearchCrawler::new(None, None);
    assert_eq!(c.extract_keyword(&doc), "稻香");
    assert_eq!(c.extract_total_count(&doc), 0);
    let empty = Document::parse("<html></html>");
    assert_eq!(c.extract_keyword(&empty), "");
}

#[test]
fn song_page_info() {
    let doc = Document::parse(SONG_PAGE);
    let c = DownloadCrawler::new("out", None, None);
    let info = c.extract_song_info(&doc);
    assert_eq!(info.mp3_id, Some("9".to_string()));
    assert_eq!(info.play_id, Some("abc".to_string()));
    assert_eq!(info.title, Some("晴天".to_string()));
    assert_eq!(info.author, Some("周杰伦".to_string()));
    assert_eq!(info.cover, Some("http://img/c.jpg".to_string()));
    assert_eq!(info.extra_url, Some("http://spare/x".to_string()));
    assert_eq!(info.lrc, Some("line1\nline2".to_string()));
}

#[test]
fn timed_lyrics_get_one_line_each() {
    let doc = Document::parse("<div id='content-lrc2'>[00:01]a<br/>[00:02]b<br>[00:03]c</div>");
    let info = DownloadCrawler::new("out", None, None).extract_song_info(&doc);
    assert_eq!(info.lrc, Some("[00:01]a\n[00:02]b\n[00:03]c".to_string()));
}

#[test]
fn song_page_without_script() {
    let doc = Document::parse("<html><body>nothing</body></html>");
    let info = DownloadCrawler::new("out", None, None).extract_song_info(&doc);
    assert_eq!(info.play_id, None);
    assert_eq!(info.lrc, None);
}

#[test]
fn download_addresses() {
    let c = DownloadCrawler::new("out", Some("c=1".to_string()), None);
    assert_eq!(c.song_page_url(5863335), "https://www.gequke.com/song/5863335");
    assert_eq!(c.audio_request_body("abc"), "id=abc&type=0");
    assert_eq!(c.get_cookies(), Some("c=1".to_string()));
}

#[test]
fn file_names_lose_forbidden_characters() {
    assert_eq!(sanitize_filename("a<b>:c\"/\\|?*d.mp3"), "abcd.mp3");
    assert_eq!(sanitize_filename("晴天-周杰伦.mp3"), "晴天-周杰伦.mp3");
    assert_eq!(sanitize_filename(""), "");
    let once = sanitize_filename("x?y");
    assert_eq!(sanitize_filename(&once), once);
}

#[test]
fn audio_file_extension_follows_the_address() {
    assert_eq!(audio_extension("http://x/A.M4A?t=1", Some("mp3")), Some("m4a".to_string()));
    assert_eq!(audio_extension("http://x/a.flac", Some("mp3")), Some("flac".to_string()));
    assert_eq!(audio_extension("http://x/a.aac", Some("mp3")), Some("aac".to_string()));
    assert_eq!(audio_extension("http://x/a.aac", Some("aac")), None);
    assert_eq!(audio_extension("http://x/a.mp3", Some("mp3")), None);
    assert_eq!(audio_extension("http://x/a.aac", None), None);
}

#[test]
fn audio_address_from_the_service_reply() {
    assert_eq!(audio_url_from_reply(200, Some(200), Some("http://a".to_string())), Some("http://a".to_string()));
    assert_eq!(audio_url_from_reply(404, Some(200), Some("http://a".to_string())), None);
    assert_eq!(audio_url_from_reply(200, Some(500), Some("http://a".to_string())), None);
    assert_eq!(audio_url_from_reply(200, None, Some("http://a".to_string())), None);
    assert_eq!(audio_url_from_reply(200, Some(200), None), None);
}

#[test]
fn ranking_and_page_type_tables() {
    let r = get_ranking_types();
    for (k, v) in [("singer", "歌手榜"), ("surge", "飙升榜"), ("new", "新歌榜"), ("douyin", "抖音榜"),
                   ("jingdian", "怀旧榜"), ("dianyin", "电音榜"), ("wwdj", "DJ榜")] {
        assert_eq!(r.get(k), Some(v));
        assert!(r.contains_key(k));
    }
    assert_eq!(r.get("hot"), None);
    let p = get_page_types();
    assert_eq!(p.get("homepage"), Some("主页"));
    assert_eq!(p.get("ranking"), Some("排行榜"));
    assert_eq!(p.get("search"), Some("搜索结果"));
    assert!(!p.contains_key("download"));
    let c = RankingCrawler::new(None, None);
    assert_eq!(c.get_ranking_types().get("surge"), Some("飙升榜"));
}

#[test]
fn document_selection_follows_html_select() {
    let src = "<html><body><table><tr><td><b>x</b></td></tr><a href=\"1\">A</a></table></body></html>";
    let doc = Document::parse(src);
    let sel = doc.selection("b, a");
    let all = doc.select_all(&sel);
    let texts: Vec<String> = all.iter().map(|&i| doc.text(i).to_string()).collect();
    let html = scraper::Html::parse_document(src);
    let expected: Vec<String> = html
        .select(&scraper::Selector::parse("b, a").unwrap())
        .map(|e| e.text().collect::<String>())
        .collect();
    assert_eq!(texts, expected);
    assert_eq!(texts.len(), 2);
}
