//! The HTTP headers each crawler sends, and the addresses it talks to.

use vstd::prelude::*;
use crate::crawlers::download::{DownloadCrawler, song_page_url_spec};
use crate::crawlers::homepage::HomepageCrawler;
use crate::crawlers::ranking::RankingCrawler;
use crate::crawlers::search::SearchCrawler;
use crate::text::owned;

verus! {

/// The address of the site's home page.
pub const HOME_URL: &'static str = "https://www.gequke.com/";

/// The service that gives a song's audio address.
pub const AUDIO_API_URL: &'static str = "https://www.gequke.com/api/music";

/// How many redirections a crawler follows.
pub const MAX_REDIRECTS: usize = 10;

/// The `Accept` header of the home page crawler.
pub const HOMEPAGE_ACCEPT: &'static str = "text/html,application/xhtml+xml,application/xml;q=0.9,*/*;q=0.8";

/// The `Accept` header of the ranking crawler.
pub const RANKING_ACCEPT: &'static str = "text/html,*/*;q=0.8";

/// The `Accept` header of the search and download crawlers.
pub const BROWSER_ACCEPT: &'static str = "text/html,application/xhtml+xml,application/xml;q=0.9,image/avif,image/webp,image/apng,*/*;q=0.8";

/// The `Accept-Language` header of the home page and ranking crawlers.
pub const CHINESE_ONLY: &'static str = "zh-CN,zh;q=0.9";

/// The `Accept-Language` header of the search and download crawlers.
pub const CHINESE_THEN_ENGLISH: &'static str = "zh-CN,zh;q=0.9,en;q=0.8";

/// The view of a header list.
pub open spec fn headers_view(h: Seq<(String, String)>) -> Seq<(Seq<char>, Seq<char>)> {
    h.map_values(|p: (String, String)| (p.0@, p.1@))
}

/// The headers every request of a crawler carries: its `User-Agent`, then
/// `Accept` and `Accept-Language`.
pub open spec fn default_headers_spec(agent: Seq<char>, accept: Seq<char>, language: Seq<char>) -> Seq<(Seq<char>, Seq<char>)> {
    seq![("User-Agent"@, agent), ("Accept"@, accept), ("Accept-Language"@, language)]
}

fn default_headers(agent: String, accept: &str, language: &str) -> (r: Vec<(String, String)>)
    ensures
        headers_view(r@) == default_headers_spec(agent@, accept@, language@),
{
    let mut r: Vec<(String, String)> = Vec::new();
    r.push((owned("User-Agent"), agent));
    r.push((owned("Accept"), owned(accept)));
    r.push((owned("Accept-Language"), owned(language)));
    assert(headers_view(r@) =~= default_headers_spec(r@[0].1@, accept@, language@));
    r
}

impl HomepageCrawler {
    /// The headers of every request of this crawler.
    pub fn request_headers(&self) -> (r: Vec<(String, String)>)
        ensures
            headers_view(r@) == default_headers_spec(self.agent_view(), HOMEPAGE_ACCEPT@, CHINESE_ONLY@),
    {
        default_headers(self.user_agent(), HOMEPAGE_ACCEPT, CHINESE_ONLY)
    }
}

impl RankingCrawler {
    /// The headers of every request of this crawler.
    pub fn request_headers(&self) -> (r: Vec<(String, String)>)
        ensures
            headers_view(r@) == default_headers_spec(self.agent_view(), RANKING_ACCEPT@, CHINESE_ONLY@),
    {
        default_headers(self.user_agent(), RANKING_ACCEPT, CHINESE_ONLY)
    }
}

impl SearchCrawler {
    /// The headers of every request of this crawler.
    pub fn request_headers(&self) -> (r: Vec<(String, String)>)
        ensures
            headers_view(r@) == default_headers_spec(self.agent_view(), BROWSER_ACCEPT@, CHINESE_THEN_ENGLISH@),
    {
        default_headers(self.user_agent(), BROWSER_ACCEPT, CHINESE_THEN_ENGLISH)
    }
}

/// The headers of the request for a song's audio address.
pub open spec fn audio_headers_spec(song_id: i64) -> Seq<(Seq<char>, Seq<char>)> {
    seq![
        ("Accept"@, "application/json, text/javascript, */*; q=0.01"@),
        ("Content-Type"@, "application/x-www-form-urlencoded; charset=UTF-8"@),
        ("X-Requested-With"@, "XMLHttpRequest"@),
        ("X-Custom-Header"@, "SecretKey"@),
        ("Origin"@, "https://www.gequke.com"@),
        ("Referer"@, song_page_url_spec(song_id)),
    ]
}

impl DownloadCrawler {
    /// The headers of every request of this crawler.
    pub fn request_headers(&self) -> (r: Vec<(String, String)>)
        ensures
            headers_view(r@) == default_headers_spec(self.agent_view(), BROWSER_ACCEPT@, CHINESE_THEN_ENGLISH@),
    {
        default_headers(self.user_agent(), BROWSER_ACCEPT, CHINESE_THEN_ENGLISH)
    }

    /// The extra headers of the request for the audio address of
    /// `song_id`: it poses as the page's own script.
    pub fn audio_request_headers(&self, song_id: i64) -> (r: Vec<(String, String)>)
        ensures
            headers_view(r@) == audio_headers_spec(song_id),
    {
        let mut r: Vec<(String, String)> = Vec::new();
        r.push((owned("Accept"), owned("application/json, text/javascript, */*; q=0.01")));
        r.push((owned("Content-Type"), owned("application/x-www-form-urlencoded; charset=UTF-8")));
        r.push((owned("X-Requested-With"), owned("XMLHttpRequest")));
        r.push((owned("X-Custom-Header"), owned("SecretKey")));
        r.push((owned("Origin"), owned("https://www.gequke.com")));
        r.push((owned("Referer"), self.song_page_url(song_id)));
        assert(headers_view(r@) =~= audio_headers_spec(song_id));
        r
    }

    /// The extra headers of a file download: the site as referrer and this
    /// crawler's `User-Agent`.
    pub fn file_request_headers(&self) -> (r: Vec<(String, String)>)
        ensures
            headers_view(r@) == seq![("Referer"@, HOME_URL@), ("User-Agent"@, self.agent_view())],
    {
        let mut r: Vec<(String, String)> = Vec::new();
        r.push((owned("Referer"), owned(HOME_URL)));
        r.push((owned("User-Agent"), self.user_agent()));
        assert(headers_view(r@) =~= seq![("Referer"@, HOME_URL@), ("User-Agent"@, self.agent_view())]);
        r
    }
}

} // verus!
