//! Song pages and the download of a song: what to fetch, where to save it,
//! and what the outcome is.

use vstd::prelude::*;
use crate::dom::{Document, elems, first_of, select_doc};
use crate::numbers::{i64_to_string, int_decimal};
use crate::pattern::{matched_group, matched_group_exec, opt_str_view};
use crate::text::{concat, contains, lowercase_of, owned, push_char, replace_all, replace_seq, seq_contains, str_eq, to_lowercase};

verus! {

/// What a song page tells of the song.
pub struct SongInfo {
    pub mp3_id: Option<String>,
    pub play_id: Option<String>,
    pub title: Option<String>,
    pub author: Option<String>,
    pub cover: Option<String>,
    pub lrc: Option<String>,
    pub extra_url: Option<String>,
}

/// Mathematical view of a [`SongInfo`].
pub struct SongInfoView {
    pub mp3_id: Option<Seq<char>>,
    pub play_id: Option<Seq<char>>,
    pub title: Option<Seq<char>>,
    pub author: Option<Seq<char>>,
    pub cover: Option<Seq<char>>,
    pub lrc: Option<Seq<char>>,
    pub extra_url: Option<Seq<char>>,
}

impl View for SongInfo {
    type V = SongInfoView;

    open spec fn view(&self) -> SongInfoView {
        SongInfoView {
            mp3_id: opt_str_view(self.mp3_id),
            play_id: opt_str_view(self.play_id),
            title: opt_str_view(self.title),
            author: opt_str_view(self.author),
            cover: opt_str_view(self.cover),
            lrc: opt_str_view(self.lrc),
            extra_url: opt_str_view(self.extra_url),
        }
    }
}

/// The song of a download.
pub struct DownloadSongInfo {
    pub song_id: i64,
    pub title: String,
    pub artist: String,
    pub cover_url: Option<String>,
    pub play_id: Option<String>,
}

/// View of a [`DownloadSongInfo`]: id, title, artist, cover, play id.
pub type DownloadSongView = (i64, Seq<char>, Seq<char>, Option<Seq<char>>, Option<Seq<char>>);

impl View for DownloadSongInfo {
    type V = DownloadSongView;

    open spec fn view(&self) -> DownloadSongView {
        (self.song_id, self.title@, self.artist@, opt_str_view(self.cover_url), opt_str_view(self.play_id))
    }
}

/// The outcome of a download.
pub struct DownloadResult {
    pub success: bool,
    pub mp3_path: Option<String>,
    pub lrc_path: Option<String>,
    pub error: Option<String>,
    pub song_info: Option<DownloadSongInfo>,
}

/// Mathematical view of a [`DownloadResult`].
pub struct DownloadResultView {
    pub success: bool,
    pub mp3_path: Option<Seq<char>>,
    pub lrc_path: Option<Seq<char>>,
    pub error: Option<Seq<char>>,
    pub song_info: Option<DownloadSongView>,
}

impl View for DownloadResult {
    type V = DownloadResultView;

    open spec fn view(&self) -> DownloadResultView {
        DownloadResultView {
            success: self.success,
            mp3_path: opt_str_view(self.mp3_path),
            lrc_path: opt_str_view(self.lrc_path),
            error: opt_str_view(self.error),
            song_info: match self.song_info {
                Some(s) => Some(s@),
                None => None,
            },
        }
    }
}

// ---------------------------------------------------------------------
// Song pages
// ---------------------------------------------------------------------

/// The marker of the script that carries the song's variables.
pub open spec fn script_marker() -> Seq<char> {
    "window.mp3_id"@
}

/// The first text of the first of `scripts` whose first text holds the
/// marker.
pub open spec fn marked_script(src: Seq<char>, scripts: Seq<int>) -> Option<Seq<char>>
    decreases scripts.len(),
{
    if scripts.len() == 0 {
        None
    } else {
        match elems(src)[scripts[0]].first_text {
            Some(t) => if seq_contains(t, script_marker()) {
                Some(t)
            } else {
                marked_script(src, scripts.drop_first())
            },
            None => marked_script(src, scripts.drop_first()),
        }
    }
}

/// The value a `window.<name> = '...'` assignment gives in the script.
pub open spec fn script_var(script: Option<Seq<char>>, pattern: Seq<char>) -> Option<Seq<char>> {
    match script {
        Some(t) => matched_group(pattern, t, 1),
        None => None,
    }
}

/// The lyrics: the inner HTML of the first `div#content-lrc2`, with each
/// line break tag (`<br/>`, `<br />`, and `<br>`, the form the HTML parser
/// writes) turned into a line break, so that each timed line of the lyrics
/// stands on a line of its own.
pub open spec fn lyrics_spec(src: Seq<char>) -> Option<Seq<char>> {
    match first_of(select_doc(src, "div#content-lrc2"@)) {
        Some(d) => Some(
            replace_seq(
                replace_seq(replace_seq(elems(src)[d].inner_html, "<br/>"@, "\n"@), "<br />"@, "\n"@),
                "<br>"@,
                "\n"@,
            ),
        ),
        None => None,
    }
}

/// What a song page tells: the variables of the first script that sets
/// `window.mp3_id`, and the lyrics.
pub open spec fn song_info_spec(src: Seq<char>) -> SongInfoView {
    let s = marked_script(src, select_doc(src, "script"@));
    SongInfoView {
        mp3_id: script_var(s, "window\\.mp3_id\\s*=\\s*'([^']+)'"@),
        play_id: script_var(s, "window\\.play_id\\s*=\\s*'([^']+)'"@),
        title: script_var(s, "window\\.mp3_title\\s*=\\s*'([^']+)'"@),
        author: script_var(s, "window\\.mp3_author\\s*=\\s*'([^']+)'"@),
        cover: script_var(s, "window\\.mp3_cover\\s*=\\s*'([^']+)'"@),
        lrc: lyrics_spec(src),
        extra_url: script_var(s, "window\\.mp3_extra_url\\s*=\\s*'([^']+)'"@),
    }
}

/// The script's first text as an optional sequence.
pub open spec fn opt_text_view(t: Option<&str>) -> Option<Seq<char>> {
    match t {
        Some(x) => Some(x@),
        None => None,
    }
}

fn find_marked_script(doc: &Document) -> (r: Option<&str>)
    requires
        doc.wf(),
    ensures
        opt_text_view(r) == marked_script(doc.src(), select_doc(doc.src(), "script"@)),
{
    let script_sel = doc.selection("script");
    let scripts = doc.select_all(&script_sel);
    let ghost sv = select_doc(doc.src(), "script"@);
    let mut k: usize = 0;
    assert(sv.subrange(0, sv.len() as int) =~= sv);
    while k < scripts.len()
        invariant
            doc.wf(),
            sv == select_doc(doc.src(), "script"@),
            sv == scripts@.map_values(|j: usize| j as int),
            forall|m: int| 0 <= m < scripts@.len() ==> #[trigger] scripts@[m] < elems(doc.src()).len(),
            k <= scripts@.len(),
            marked_script(doc.src(), sv) == marked_script(doc.src(), sv.subrange(k as int, sv.len() as int)),
        decreases scripts.len() - k,
    {
        let j = scripts[k];
        let ghost rest = sv.subrange(k as int, sv.len() as int);
        assert(rest[0] == j as int);
        assert(rest.drop_first() =~= sv.subrange(k + 1, sv.len() as int));
        match doc.first_text(j) {
            Some(t) => {
                if contains(t, "window.mp3_id") {
                    return Some(t);
                }
            },
            None => {},
        }
        k = k + 1;
    }
    assert(sv.subrange(k as int, sv.len() as int) =~= Seq::<int>::empty());
    None
}

fn script_var_exec(script: Option<&str>, pattern: &str) -> (r: Option<String>)
    ensures
        opt_str_view(r) == script_var(opt_text_view(script), pattern@),
{
    match script {
        Some(t) => matched_group_exec(pattern, t, 1),
        None => None,
    }
}

/// The address of a song's page.
pub open spec fn song_page_url_spec(song_id: i64) -> Seq<char> {
    "https://www.gequke.com/song/"@ + int_decimal(song_id as int)
}

/// The body of the request for a song's audio address.
pub open spec fn audio_request_body_spec(play_id: Seq<char>) -> Seq<char> {
    "id="@ + play_id + "&type=0"@
}

/// The audio address in the reply of the music service: the reply must have
/// status 200 and a `code` of 200, and then carries it in `data.url`.
pub open spec fn audio_url_spec(status: u16, code: Option<i64>, url: Option<Seq<char>>) -> Option<Seq<char>> {
    if status == 200 && code == Some(200i64) {
        url
    } else {
        None
    }
}

/// The service gives an audio address only in a reply of status 200 whose
/// `code` is 200, and that address is the reply's `data.url`; a reply of
/// another status or code gives none, whatever its `url`.
pub proof fn lemma_audio_url_only_from_accepted_reply(status: u16, code: Option<i64>, url: Option<Seq<char>>)
    ensures
        audio_url_spec(status, code, url) is Some ==> status == 200 && code == Some(200i64),
        (status == 200 && code == Some(200i64)) ==> audio_url_spec(status, code, url) == url,
        (status != 200 || code != Some(200i64)) ==> audio_url_spec(status, code, url) is None,
{
}

/// A character that file names may not hold.
pub open spec fn invalid_name_char(c: char) -> bool {
    c == '<' || c == '>' || c == ':' || c == '"' || c == '/' || c == '\\' || c == '|' || c == '?'
        || c == '*'
}

/// `s` without the characters that file names may not hold.
pub open spec fn sanitize_seq(s: Seq<char>) -> Seq<char>
    decreases s.len(),
{
    if s.len() == 0 {
        Seq::empty()
    } else if invalid_name_char(s.last()) {
        sanitize_seq(s.drop_last())
    } else {
        sanitize_seq(s.drop_last()).push(s.last())
    }
}

/// `sanitize_seq` keeps no forbidden character.
pub proof fn lemma_sanitize_valid(s: Seq<char>)
    ensures
        forall|i: int| 0 <= i < sanitize_seq(s).len() ==> !invalid_name_char(#[trigger] sanitize_seq(s)[i]),
    decreases s.len(),
{
    if s.len() > 0 {
        lemma_sanitize_valid(s.drop_last());
        let p = sanitize_seq(s.drop_last());
        if !invalid_name_char(s.last()) {
            assert forall|i: int| 0 <= i < p.push(s.last()).len() implies !invalid_name_char(
                #[trigger] p.push(s.last())[i],
            ) by {
                if i < p.len() {
                    assert(p.push(s.last())[i] == p[i]);
                }
            }
        }
    }
}

/// A name with no forbidden character is left as it is.
pub proof fn lemma_sanitize_keeps_valid(s: Seq<char>)
    requires
        forall|i: int| 0 <= i < s.len() ==> !invalid_name_char(#[trigger] s[i]),
    ensures
        sanitize_seq(s) == s,
    decreases s.len(),
{
    if s.len() > 0 {
        lemma_sanitize_keeps_valid(s.drop_last());
        assert(s.drop_last().push(s.last()) =~= s);
    }
}

/// Cleaning a file name twice gives what cleaning it once gives.
pub proof fn lemma_sanitize_idempotent(s: Seq<char>)
    ensures
        sanitize_seq(sanitize_seq(s)) == sanitize_seq(s),
{
    lemma_sanitize_valid(s);
    lemma_sanitize_keeps_valid(sanitize_seq(s));
}

/// `name` without the characters `< > : " / \ | ? *`.
pub fn sanitize_filename(filename: &str) -> (r: String)
    ensures
        r@ == sanitize_seq(filename@),
        forall|i: int| 0 <= i < r@.len() ==> !invalid_name_char(#[trigger] r@[i]),
{
    let cs = crate::text::chars_of(filename);
    let mut result = String::new();
    let mut i: usize = 0;
    assert(cs@.take(0) =~= Seq::<char>::empty());
    while i < cs.len()
        invariant
            cs@ == filename@,
            i <= cs@.len(),
            result@ == sanitize_seq(cs@.take(i as int)),
        decreases cs.len() - i,
    {
        let c = cs[i];
        assert(cs@.take(i + 1).drop_last() =~= cs@.take(i as int));
        assert(cs@.take(i + 1).last() == c);
        if !(c == '<' || c == '>' || c == ':' || c == '"' || c == '/' || c == '\\' || c == '|' || c
            == '?' || c == '*') {
            push_char(&mut result, c);
        }
        i = i + 1;
    }
    assert(cs@.take(cs@.len() as int) =~= cs@);
    proof {
        lemma_sanitize_valid(filename@);
    }
    result
}

/// The extension an audio file gets, given the lower-cased address it is
/// downloaded from and the extension of the planned file name: `aac`,
/// `flac` or `m4a` (tested in that order) when the address names that
/// format and the planned extension exists and differs; otherwise no change.
pub open spec fn extension_override_spec(lower_url: Seq<char>, ext: Option<Seq<char>>) -> Option<Seq<char>> {
    if seq_contains(lower_url, ".aac"@) && ext is Some && ext.unwrap() != "aac"@ {
        Some("aac"@)
    } else if seq_contains(lower_url, ".flac"@) && ext is Some && ext.unwrap() != "flac"@ {
        Some("flac"@)
    } else if seq_contains(lower_url, ".m4a"@) && ext is Some && ext.unwrap() != "m4a"@ {
        Some("m4a"@)
    } else {
        None
    }
}

/// A new extension is chosen only when the address names that format and
/// the planned file has an extension that differs from it: the result, when
/// there is one, is one of `aac`, `flac`, `m4a`, occurs as `.`+result in the
/// address, and is not the planned extension; without a planned extension
/// nothing changes.
pub proof fn lemma_extension_override_names_the_format(lower_url: Seq<char>, ext: Option<Seq<char>>)
    ensures
        ext is None ==> extension_override_spec(lower_url, ext) is None,
        extension_override_spec(lower_url, ext) matches Some(e) ==> {
            &&& (e == "aac"@ || e == "flac"@ || e == "m4a"@)
            &&& seq_contains(lower_url, "."@ + e)
            &&& ext != Some(e)
        },
{
    reveal_strlit("aac");
    reveal_strlit("flac");
    reveal_strlit("m4a");
    reveal_strlit(".aac");
    reveal_strlit(".flac");
    reveal_strlit(".m4a");
    reveal_strlit(".");
    assert("."@ + "aac"@ =~= ".aac"@);
    assert("."@ + "flac"@ =~= ".flac"@);
    assert("."@ + "m4a"@ =~= ".m4a"@);
}

/// The extension to give an audio file downloaded from an address whose
/// lower-case form is `lower_url`, when it differs from `ext`.
pub fn extension_override(lower_url: &str, ext: Option<&str>) -> (r: Option<String>)
    ensures
        opt_str_view(r) == extension_override_spec(
            lower_url@,
            match ext {
                Some(e) => Some(e@),
                None => None,
            },
        ),
{
    let differs = |x: &str| -> (b: bool)
        ensures
            b == (ext is Some && ext.unwrap()@ != x@),
        {
            match ext {
                Some(e) => !str_eq(e, x),
                None => false,
            }
        };
    if contains(lower_url, ".aac") && differs("aac") {
        Some(owned("aac"))
    } else if contains(lower_url, ".flac") && differs("flac") {
        Some(owned("flac"))
    } else if contains(lower_url, ".m4a") && differs("m4a") {
        Some(owned("m4a"))
    } else {
        None
    }
}

/// The extension to give an audio file downloaded from `url` when the
/// planned file name has extension `ext` (`None`: keep the planned name).
pub fn audio_extension(url: &str, ext: Option<&str>) -> (r: Option<String>)
    ensures
        opt_str_view(r) == extension_override_spec(
            lowercase_of(url@),
            match ext {
                Some(e) => Some(e@),
                None => None,
            },
        ),
{
    let lower = to_lowercase(url);
    extension_override(lower.as_str(), ext)
}

/// What `serde_json` reads of the music service's reply `body`: the
/// member `code` as an `i64` and the member `url` of the member `data` as
/// text, each when present with that type; `None` when the body is not
/// JSON.
pub uninterp spec fn api_reply_of(body: Seq<char>) -> Option<(Option<i64>, Option<Seq<char>>)>;

/// The view of a read reply.
pub open spec fn reply_view(r: Option<(Option<i64>, Option<String>)>) -> Option<(Option<i64>, Option<Seq<char>>)> {
    match r {
        Some((c, u)) => Some((c, opt_str_view(u))),
        None => None,
    }
}

/// Parses `body` with `serde_json::from_str` into a `serde_json::Value`
/// and picks `code` (`Value::as_i64`) and `data.url` (`Value::as_str`).
/// The contract names the result only.
#[verifier::external_body]
fn read_api_reply(body: &str) -> (r: Option<(Option<i64>, Option<String>)>)
    ensures
        reply_view(r) == api_reply_of(body@),
{
    let v: serde_json::Value = serde_json::from_str(body).ok()?;
    let code = v.get("code").and_then(|c| c.as_i64());
    let url = v.get("data").and_then(|d| d.get("url")).and_then(|u| u.as_str()).map(|u| u.to_string());
    Some((code, url))
}

/// Why the music service's reply was refused.
pub enum ApiReplyError {
    /// A reply of status 200 whose body is not JSON.
    NotJson,
}

/// The audio address in a reply of the music service with status
/// `status` and body `body`: none unless the status is 200 (the body is
/// then not read); an error when a status-200 body is not JSON.
pub fn audio_url_from_body(status: u16, body: &str) -> (r: Result<Option<String>, ApiReplyError>)
    ensures
        status != 200 ==> r matches Ok(None),
        status == 200 ==> match api_reply_of(body@) {
            None => r is Err,
            Some((c, u)) => r matches Ok(x) && opt_str_view(x) == audio_url_spec(200, c, u),
        },
{
    if status != 200 {
        return Ok(None);
    }
    match read_api_reply(body) {
        None => Err(ApiReplyError::NotJson),
        Some((code, url)) => Ok(audio_url_from_reply(status, code, url)),
    }
}

/// The reply of the music service, as far as the audio address goes.
pub fn audio_url_from_reply(status: u16, code: Option<i64>, url: Option<String>) -> (r: Option<String>)
    ensures
        opt_str_view(r) == audio_url_spec(status, code, opt_str_view(url)),
{
    if status != 200 {
        return None;
    }
    match code {
        Some(c) => if c == 200 {
            url
        } else {
            None
        },
        None => None,
    }
}

/// The default `User-Agent` of the download crawler.
pub open spec fn download_default_agent() -> Seq<char> {
    "Mozilla/5.0 (Windows NT 10.0; Win64; x64) AppleWebKit/537.36 (KHTML, like Gecko) Chrome/131.0.0.0 Safari/537.36"@
}

/// Crawler of song pages, which downloads songs into a directory.
pub struct DownloadCrawler {
    output_dir: String,
    cookie: Option<String>,
    user_agent: String,
}

impl DownloadCrawler {
    /// The directory the files go to.
    pub closed spec fn dir_view(&self) -> Seq<char> {
        self.output_dir@
    }

    /// The cookie sent with requests.
    pub closed spec fn cookie_view(&self) -> Option<Seq<char>> {
        opt_str_view(self.cookie)
    }

    /// The `User-Agent` sent with requests.
    pub closed spec fn agent_view(&self) -> Seq<char> {
        self.user_agent@
    }

    /// A crawler saving into `output_dir`, with the given cookie and
    /// `User-Agent` (a default one when none is given).
    pub fn new(output_dir: &str, cookie: Option<String>, user_agent: Option<String>) -> (c: Self)
        ensures
            c.dir_view() == output_dir@,
            c.cookie_view() == opt_str_view(cookie),
            c.agent_view() == match user_agent {
                Some(ua) => ua@,
                None => download_default_agent(),
            },
    {
        let ua = match user_agent {
            Some(ua) => ua,
            None => owned(
                "Mozilla/5.0 (Windows NT 10.0; Win64; x64) AppleWebKit/537.36 (KHTML, like Gecko) Chrome/131.0.0.0 Safari/537.36",
            ),
        };
        DownloadCrawler { output_dir: owned(output_dir), cookie, user_agent: ua }
    }

    /// The directory the files go to.
    pub fn output_dir(&self) -> (d: String)
        ensures
            d@ == self.dir_view(),
    {
        self.output_dir.clone()
    }

    /// The cookie to send, if any.
    pub fn get_cookies(&self) -> (c: Option<String>)
        ensures
            opt_str_view(c) == self.cookie_view(),
    {
        match &self.cookie {
            Some(c) => Some(c.clone()),
            None => None,
        }
    }

    /// The `User-Agent` to send.
    pub fn user_agent(&self) -> (u: String)
        ensures
            u@ == self.agent_view(),
    {
        self.user_agent.clone()
    }

    /// The address of a song's page.
    pub fn song_page_url(&self, song_id: i64) -> (u: String)
        ensures
            u@ == song_page_url_spec(song_id),
    {
        concat("https://www.gequke.com/song/", i64_to_string(song_id).as_str())
    }

    /// The body of the request for a song's audio address.
    pub fn audio_request_body(&self, play_id: &str) -> (b: String)
        ensures
            b@ == audio_request_body_spec(play_id@),
    {
        let head = concat("id=", play_id);
        concat(head.as_str(), "&type=0")
    }

    /// What a song page tells of the song.
    pub fn extract_song_info(&self, doc: &Document) -> (info: SongInfo)
        requires
            doc.wf(),
        ensures
            info@ == song_info_spec(doc.src()),
    {
        let found = find_marked_script(doc);
        let ghost script = opt_text_view(found);
        let mp3_id = script_var_exec(found, "window\\.mp3_id\\s*=\\s*'([^']+)'");
        let play_id = script_var_exec(found, "window\\.play_id\\s*=\\s*'([^']+)'");
        let title = script_var_exec(found, "window\\.mp3_title\\s*=\\s*'([^']+)'");
        let author = script_var_exec(found, "window\\.mp3_author\\s*=\\s*'([^']+)'");
        let cover = script_var_exec(found, "window\\.mp3_cover\\s*=\\s*'([^']+)'");
        let extra_url = script_var_exec(found, "window\\.mp3_extra_url\\s*=\\s*'([^']+)'");
        let lrc_sel = doc.selection("div#content-lrc2");
        let lrc = match doc.first_all(&lrc_sel) {
            Some(d) => {
                proof {
                    reveal_strlit("<br/>");
                    reveal_strlit("<br />");
                    reveal_strlit("<br>");
                }
                let once = replace_all(doc.inner_html(d), "<br/>", "\n");
                let twice = replace_all(once.as_str(), "<br />", "\n");
                Some(replace_all(twice.as_str(), "<br>", "\n"))
            },
            None => None,
        };
        SongInfo { mp3_id, play_id, title, author, cover, lrc, extra_url }
    }
}

// ---------------------------------------------------------------------
// The download of one song
// ---------------------------------------------------------------------

/// What the download of a song needs done next.
pub enum DownloadAction {
    /// Fetch the song's page and hand it to `on_song_page`.
    FetchSongPage { url: String },
    /// Fetch the cover image, then call `on_cover` with its bytes.
    FetchCover { url: String },
    /// Write the album cover `bytes` into the file `file_name` of the output
    /// directory, beside the audio, then call `on_cover_saved`.
    SaveCover { file_name: String, bytes: Vec<u8> },
    /// Ask the music service for the audio address, then call `on_audio_url`.
    RequestAudioUrl { play_id: String, song_id: i64 },
    /// Download the audio into the file `file_name` of the output directory
    /// (its extension possibly changed, see `audio_extension`), then call
    /// `on_audio` with the path written.
    DownloadAudio { url: String, file_name: String },
    /// Write the lyrics into the file `file_name` of the output directory,
    /// then call `on_lyrics` with the path written.
    SaveLyrics { file_name: String, lyrics: String },
    /// Nothing more: the result is final.
    Finish,
}

/// Where a download stands.
pub enum DownloadStage {
    AwaitPage,
    AwaitCover,
    AwaitCoverSaved,
    AwaitAudioUrl,
    AwaitAudio,
    AwaitLyrics,
    Finished,
}

/// The title shown for a song: its title, or `Unknown`.
pub open spec fn shown_title(info: SongInfoView) -> Seq<char> {
    match info.title {
        Some(t) => t,
        None => "Unknown"@,
    }
}

/// The artist shown for a song: its author, or `Unknown`.
pub open spec fn shown_author(info: SongInfoView) -> Seq<char> {
    match info.author {
        Some(a) => a,
        None => "Unknown"@,
    }
}

/// The audio file's name: `{title}-{author}.mp3` without forbidden characters.
pub open spec fn audio_file_name_spec(info: SongInfoView) -> Seq<char> {
    sanitize_seq(shown_title(info) + "-"@ + shown_author(info) + ".mp3"@)
}

/// The cover file's name: `{title}-{author}.jpg` without forbidden characters.
pub open spec fn cover_file_name_spec(info: SongInfoView) -> Seq<char> {
    sanitize_seq(shown_title(info) + "-"@ + shown_author(info) + ".jpg"@)
}

/// The lyrics file's name: `{title}-{author}.lrc` without forbidden characters.
pub open spec fn lyrics_file_name_spec(info: SongInfoView) -> Seq<char> {
    sanitize_seq(shown_title(info) + "-"@ + shown_author(info) + ".lrc"@)
}

/// The files a download writes, audio, lyrics and cover, have names
/// without a forbidden character, whatever the song page says.
pub proof fn lemma_file_names_valid(info: SongInfoView)
    ensures
        forall|i: int| 0 <= i < audio_file_name_spec(info).len()
            ==> !invalid_name_char(#[trigger] audio_file_name_spec(info)[i]),
        forall|i: int| 0 <= i < lyrics_file_name_spec(info).len()
            ==> !invalid_name_char(#[trigger] lyrics_file_name_spec(info)[i]),
        forall|i: int| 0 <= i < cover_file_name_spec(info).len()
            ==> !invalid_name_char(#[trigger] cover_file_name_spec(info)[i]),
{
    lemma_sanitize_valid(shown_title(info) + "-"@ + shown_author(info) + ".mp3"@);
    lemma_sanitize_valid(shown_title(info) + "-"@ + shown_author(info) + ".lrc"@);
    lemma_sanitize_valid(shown_title(info) + "-"@ + shown_author(info) + ".jpg"@);
}

/// The message when the service gives no audio address, naming the spare
/// address when the page has one.
pub open spec fn no_audio_message(extra: Option<Seq<char>>) -> Seq<char> {
    match extra {
        Some(x) => "API 未返回音频链接"@ + "，备用链接: "@ + x,
        None => "API 未返回音频链接"@,
    }
}

/// A result with nothing done yet.
pub open spec fn empty_result() -> DownloadResultView {
    DownloadResultView { success: false, mp3_path: None, lrc_path: None, error: None, song_info: None }
}

/// A finished download either succeeded with an audio file and no error,
/// or failed with an error; lyrics are only written by a download that
/// succeeded.
pub open spec fn outcome_consistent(r: DownloadResultView) -> bool {
    &&& r.success <==> r.error is None
    &&& r.success ==> r.mp3_path is Some && r.song_info is Some
    &&& r.lrc_path is Some ==> r.success
}

/// The download of one song, step by step: each step takes the outcome of
/// the previous action and tells the next one.
pub struct DownloadSession {
    song_id: i64,
    embed_cover: bool,
    stage: DownloadStage,
    info: Option<SongInfo>,
    result: DownloadResult,
}

fn opt_clone(o: &Option<String>) -> (r: Option<String>)
    ensures
        opt_str_view(r) == opt_str_view(*o),
{
    match o {
        Some(s) => Some(s.clone()),
        None => None,
    }
}

impl DownloadSession {
    /// Where the download stands.
    pub closed spec fn stage(&self) -> DownloadStage {
        self.stage
    }

    /// The song being downloaded.
    pub closed spec fn song(&self) -> i64 {
        self.song_id
    }

    /// Whether the cover is fetched.
    pub closed spec fn embeds_cover(&self) -> bool {
        self.embed_cover
    }

    /// What the song page told, once read.
    pub closed spec fn info_view(&self) -> Option<SongInfoView> {
        match self.info {
            Some(i) => Some(i@),
            None => None,
        }
    }

    /// The result so far.
    pub closed spec fn result_view(&self) -> DownloadResultView {
        self.result@
    }

    /// Session invariant: a read page that continues has a play id, and a
    /// finished session has a consistent outcome; success only comes with
    /// an audio file, lyrics only with success, and the song learned is the
    /// session's song.
    pub closed spec fn wf(&self) -> bool {
        &&& self.result.song_info matches Some(si) ==> si.song_id == self.song_id
        &&& self.result.lrc_path is Some ==> self.result.success
        &&& (self.stage is AwaitCover || self.stage is AwaitCoverSaved || self.stage is AwaitAudioUrl || self.stage is AwaitAudio
            || self.stage is AwaitLyrics) ==> (self.info is Some && self.info.unwrap().play_id is Some
            && self.result.song_info is Some)
        &&& self.stage is Finished ==> outcome_consistent(self.result@)
        &&& self.result.success ==> self.result.mp3_path is Some && self.result.error is None
            && self.result.song_info is Some
        &&& !(self.stage is Finished) ==> self.result.error is None
        &&& (self.stage is AwaitPage || self.stage is AwaitCover || self.stage is AwaitCoverSaved || self.stage is AwaitAudioUrl
            || self.stage is AwaitAudio) ==> !self.result.success
        &&& self.stage is AwaitLyrics ==> self.result.success
    }

    /// Starts the download of `song_id`; the first action fetches its page.
    pub fn start(song_id: i64, embed_cover: bool) -> (r: (DownloadSession, DownloadAction))
        ensures
            r.0.wf(),
            r.0.stage() is AwaitPage,
            r.0.song() == song_id,
            r.0.embeds_cover() == embed_cover,
            r.0.result_view() == empty_result(),
            r.1 matches DownloadAction::FetchSongPage { url } && url@ == song_page_url_spec(song_id),
    {
        let session = DownloadSession {
            song_id,
            embed_cover,
            stage: DownloadStage::AwaitPage,
            info: None,
            result: DownloadResult { success: false, mp3_path: None, lrc_path: None, error: None, song_info: None },
        };
        let url = concat("https://www.gequke.com/song/", i64_to_string(song_id).as_str());
        (session, DownloadAction::FetchSongPage { url })
    }

    /// Takes the song's page (or the error of fetching it). Without a play
    /// id the download fails; otherwise the song is known and the next step
    /// fetches the cover (when wanted and present) or asks for the audio
    /// address.
    pub fn on_song_page(&mut self, page: Result<&Document, String>) -> (a: DownloadAction)
        requires
            old(self).wf(),
            old(self).stage() is AwaitPage,
            page matches Ok(d) ==> d.wf(),
        ensures
            final(self).wf(),
            final(self).song() == old(self).song(),
            final(self).embeds_cover() == old(self).embeds_cover(),
            match page {
                Err(e) => {
                    &&& final(self).stage() is Finished
                    &&& final(self).result_view() == (DownloadResultView {
                        error: Some("获取歌曲页面失败: "@ + e@),
                        ..old(self).result_view()
                    })
                    &&& a is Finish
                },
                Ok(d) => {
                    let info = song_info_spec(d.src());
                    if info.play_id is None {
                        &&& final(self).stage() is Finished
                        &&& final(self).result_view() == (DownloadResultView {
                            error: Some("未找到 play_id，可能需要登录"@),
                            ..old(self).result_view()
                        })
                        &&& a is Finish
                    } else {
                        &&& final(self).info_view() == Some(info)
                        &&& final(self).result_view() == (DownloadResultView {
                            song_info: Some(
                                (
                                    old(self).song(),
                                    shown_title(info),
                                    shown_author(info),
                                    info.cover,
                                    info.play_id,
                                ),
                            ),
                            ..old(self).result_view()
                        })
                        &&& if old(self).embeds_cover() && info.cover is Some {
                            &&& final(self).stage() is AwaitCover
                            &&& a matches DownloadAction::FetchCover { url } && url@ == info.cover.unwrap()
                        } else {
                            &&& final(self).stage() is AwaitAudioUrl
                            &&& a matches DownloadAction::RequestAudioUrl { play_id, song_id }
                                && play_id@ == info.play_id.unwrap() && song_id == old(self).song()
                        }
                    }
                },
            },
    {
        match page {
            Err(e) => {
                self.result.error = Some(concat("获取歌曲页面失败: ", e.as_str()));
                self.stage = DownloadStage::Finished;
                DownloadAction::Finish
            },
            Ok(doc) => {
                let crawler = DownloadCrawler::new("", None, None);
                let info = crawler.extract_song_info(doc);
                match &info.play_id {
                    None => {
                        self.result.error = Some(owned("未找到 play_id，可能需要登录"));
                        self.stage = DownloadStage::Finished;
                        DownloadAction::Finish
                    },
                    Some(play_id) => {
                        let play_id = play_id.clone();
                        let title = match &info.title {
                            Some(t) => t.clone(),
                            None => owned("Unknown"),
                        };
                        let artist = match &info.author {
                            Some(t) => t.clone(),
                            None => owned("Unknown"),
                        };
                        self.result.song_info = Some(DownloadSongInfo {
                            song_id: self.song_id,
                            title,
                            artist,
                            cover_url: opt_clone(&info.cover),
                            play_id: Some(play_id.clone()),
                        });
                        let cover = opt_clone(&info.cover);
                        self.info = Some(info);
                        match cover {
                            Some(url) => {
                                if self.embed_cover {
                                    self.stage = DownloadStage::AwaitCover;
                                    return DownloadAction::FetchCover { url };
                                }
                            },
                            None => {},
                        }
                        self.stage = DownloadStage::AwaitAudioUrl;
                        DownloadAction::RequestAudioUrl { play_id, song_id: self.song_id }
                    },
                }
            },
        }
    }

    /// The play id of the song (known once the page was read).
    fn play_id(&self) -> (p: String)
        requires
            self.info_view() is Some,
            self.info_view().unwrap().play_id is Some,
        ensures
            p@ == self.info_view().unwrap().play_id.unwrap(),
    {
        match &self.info {
            Some(i) => match &i.play_id {
                Some(p) => p.clone(),
                None => String::new(),
            },
            None => String::new(),
        }
    }

    /// Takes the cover's bytes (or the error of fetching them). Fetched
    /// bytes are to be saved beside the audio, as `{title}-{author}.jpg`;
    /// without them the next step asks for the audio address.
    pub fn on_cover(&mut self, cover: Result<Vec<u8>, String>) -> (a: DownloadAction)
        requires
            old(self).wf(),
            old(self).stage() is AwaitCover,
        ensures
            final(self).wf(),
            final(self).song() == old(self).song(),
            final(self).embeds_cover() == old(self).embeds_cover(),
            final(self).info_view() == old(self).info_view(),
            final(self).result_view() == old(self).result_view(),
            match cover {
                Ok(b) => {
                    &&& final(self).stage() is AwaitCoverSaved
                    &&& a matches DownloadAction::SaveCover { file_name, bytes } && bytes@ == b@
                        && file_name@ == cover_file_name_spec(old(self).info_view().unwrap())
                },
                Err(_) => {
                    &&& final(self).stage() is AwaitAudioUrl
                    &&& a matches DownloadAction::RequestAudioUrl { play_id, song_id } && play_id@
                        == old(self).info_view().unwrap().play_id.unwrap() && song_id == old(self).song()
                },
            },
    {
        match cover {
            Ok(bytes) => {
                let file_name = self.file_name(".jpg");
                self.stage = DownloadStage::AwaitCoverSaved;
                DownloadAction::SaveCover { file_name, bytes }
            },
            Err(_) => {
                let play_id = self.play_id();
                self.stage = DownloadStage::AwaitAudioUrl;
                DownloadAction::RequestAudioUrl { play_id, song_id: self.song_id }
            },
        }
    }

    /// Takes the end of saving the cover (a failure is only reported); the
    /// next step asks for the audio address.
    pub fn on_cover_saved(&mut self, saved: Result<String, String>) -> (a: DownloadAction)
        requires
            old(self).wf(),
            old(self).stage() is AwaitCoverSaved,
        ensures
            final(self).wf(),
            final(self).song() == old(self).song(),
            final(self).embeds_cover() == old(self).embeds_cover(),
            final(self).info_view() == old(self).info_view(),
            final(self).result_view() == old(self).result_view(),
            final(self).stage() is AwaitAudioUrl,
            a matches DownloadAction::RequestAudioUrl { play_id, song_id } && play_id@
                == old(self).info_view().unwrap().play_id.unwrap() && song_id == old(self).song(),
    {
        let play_id = self.play_id();
        self.stage = DownloadStage::AwaitAudioUrl;
        DownloadAction::RequestAudioUrl { play_id, song_id: self.song_id }
    }

    /// The names of the files the song is saved to.
    fn file_name(&self, ext: &str) -> (n: String)
        requires
            self.info_view() is Some,
        ensures
            n@ == sanitize_seq(
                shown_title(self.info_view().unwrap()) + "-"@ + shown_author(self.info_view().unwrap())
                    + ext@,
            ),
    {
        match &self.info {
            Some(i) => {
                let title = match &i.title {
                    Some(t) => t.clone(),
                    None => owned("Unknown"),
                };
                let author = match &i.author {
                    Some(t) => t.clone(),
                    None => owned("Unknown"),
                };
                let a = concat(title.as_str(), "-");
                let b = concat(a.as_str(), author.as_str());
                let c = concat(b.as_str(), ext);
                sanitize_filename(c.as_str())
            },
            None => String::new(),
        }
    }

    /// Takes the answer of the music service: with an address the next step
    /// downloads the audio, else the download fails.
    pub fn on_audio_url(&mut self, reply: Result<Option<String>, String>) -> (a: DownloadAction)
        requires
            old(self).wf(),
            old(self).stage() is AwaitAudioUrl,
        ensures
            final(self).wf(),
            final(self).song() == old(self).song(),
            final(self).info_view() == old(self).info_view(),
            match reply {
                Ok(Some(url)) => {
                    &&& final(self).stage() is AwaitAudio
                    &&& final(self).result_view() == old(self).result_view()
                    &&& a matches DownloadAction::DownloadAudio { url: u, file_name } && u@ == url@
                        && file_name@ == audio_file_name_spec(old(self).info_view().unwrap())
                },
                Ok(None) => {
                    &&& final(self).stage() is Finished
                    &&& final(self).result_view() == (DownloadResultView {
                        error: Some(no_audio_message(old(self).info_view().unwrap().extra_url)),
                        ..old(self).result_view()
                    })
                    &&& a is Finish
                },
                Err(e) => {
                    &&& final(self).stage() is Finished
                    &&& final(self).result_view() == (DownloadResultView {
                        error: Some("获取MP3链接失败: "@ + e@),
                        ..old(self).result_view()
                    })
                    &&& a is Finish
                },
            },
    {
        match reply {
            Ok(Some(url)) => {
                let file_name = self.file_name(".mp3");
                self.stage = DownloadStage::AwaitAudio;
                DownloadAction::DownloadAudio { url, file_name }
            },
            Ok(None) => {
                let extra = match &self.info {
                    Some(i) => opt_clone(&i.extra_url),
                    None => None,
                };
                let msg = match extra {
                    Some(x) => {
                        let head = concat("API 未返回音频链接", "，备用链接: ");
                        concat(head.as_str(), x.as_str())
                    },
                    None => owned("API 未返回音频链接"),
                };
                self.result.error = Some(msg);
                self.stage = DownloadStage::Finished;
                DownloadAction::Finish
            },
            Err(e) => {
                self.result.error = Some(concat("获取MP3链接失败: ", e.as_str()));
                self.stage = DownloadStage::Finished;
                DownloadAction::Finish
            },
        }
    }

    /// Takes the path the audio was written to (or the error): the download
    /// succeeds, and the next step saves non-empty lyrics when the page had
    /// some.
    pub fn on_audio(&mut self, written: Result<String, String>) -> (a: DownloadAction)
        requires
            old(self).wf(),
            old(self).stage() is AwaitAudio,
        ensures
            final(self).wf(),
            final(self).song() == old(self).song(),
            final(self).info_view() == old(self).info_view(),
            match written {
                Ok(path) => {
                    &&& final(self).result_view() == (DownloadResultView {
                        success: true,
                        mp3_path: Some(path@),
                        ..old(self).result_view()
                    })
                    &&& match old(self).info_view().unwrap().lrc {
                        Some(l) => if l.len() > 0 {
                            &&& final(self).stage() is AwaitLyrics
                            &&& a matches DownloadAction::SaveLyrics { file_name, lyrics }
                                && lyrics@ == l && file_name@ == lyrics_file_name_spec(
                                old(self).info_view().unwrap(),
                            )
                        } else {
                            final(self).stage() is Finished && a is Finish
                        },
                        None => final(self).stage() is Finished && a is Finish,
                    }
                },
                Err(e) => {
                    &&& final(self).stage() is Finished
                    &&& final(self).result_view() == (DownloadResultView {
                        error: Some("下载 MP3 失败: "@ + e@),
                        ..old(self).result_view()
                    })
                    &&& a is Finish
                },
            },
    {
        match written {
            Ok(path) => {
                self.result.mp3_path = Some(path);
                self.result.success = true;
                let lrc = match &self.info {
                    Some(i) => opt_clone(&i.lrc),
                    None => None,
                };
                match lrc {
                    Some(l) => {
                        if l.as_str().is_empty() {
                            self.stage = DownloadStage::Finished;
                            DownloadAction::Finish
                        } else {
                            let file_name = self.file_name(".lrc");
                            self.stage = DownloadStage::AwaitLyrics;
                            DownloadAction::SaveLyrics { file_name, lyrics: l }
                        }
                    },
                    None => {
                        self.stage = DownloadStage::Finished;
                        DownloadAction::Finish
                    },
                }
            },
            Err(e) => {
                self.result.error = Some(concat("下载 MP3 失败: ", e.as_str()));
                self.stage = DownloadStage::Finished;
                DownloadAction::Finish
            },
        }
    }

    /// Takes the path the lyrics were written to; a failure to write them
    /// leaves the result as it is.
    pub fn on_lyrics(&mut self, written: Result<String, String>) -> (a: DownloadAction)
        requires
            old(self).wf(),
            old(self).stage() is AwaitLyrics,
        ensures
            final(self).wf(),
            final(self).stage() is Finished,
            a is Finish,
            match written {
                Ok(path) => final(self).result_view() == (DownloadResultView {
                    lrc_path: Some(path@),
                    ..old(self).result_view()
                }),
                Err(_) => final(self).result_view() == old(self).result_view(),
            },
    {
        match written {
            Ok(path) => {
                self.result.lrc_path = Some(path);
            },
            Err(_) => {},
        }
        self.stage = DownloadStage::Finished;
        DownloadAction::Finish
    }

    /// Whether the download is over.
    pub fn is_finished(&self) -> (b: bool)
        ensures
            b == (self.stage() is Finished),
    {
        match self.stage {
            DownloadStage::Finished => true,
            _ => false,
        }
    }

    /// The song's title and artist, once the page was read.
    pub fn shown_names(&self) -> (r: Option<(String, String)>)
        ensures
            match r {
                Some(p) => self.result_view().song_info matches Some(si) && p.0@ == si.1 && p.1@ == si.2,
                None => self.result_view().song_info is None,
            },
    {
        match &self.result.song_info {
            Some(si) => Some((si.title.clone(), si.artist.clone())),
            None => None,
        }
    }

    /// The final result of a finished download.
    pub fn into_result(self) -> (r: DownloadResult)
        requires
            self.wf(),
            self.stage() is Finished,
        ensures
            r@ == self.result_view(),
            outcome_consistent(r@),
            r@.song_info matches Some(si) ==> si.0 == self.song(),
    {
        self.result
    }
}

/// How a batch of downloads went.
pub struct BatchTally {
    pub succeeded: usize,
    pub failed: usize,
}

/// How many of the outcomes are successes.
pub open spec fn success_count(outcomes: Seq<bool>) -> nat
    decreases outcomes.len(),
{
    if outcomes.len() == 0 {
        0
    } else {
        success_count(outcomes.drop_last()) + if outcomes.last() { 1nat } else { 0nat }
    }
}

/// Counts the successes and the failures of a batch of downloads, given
/// whether each succeeded.
pub fn tally_downloads(outcomes: &Vec<bool>) -> (t: BatchTally)
    ensures
        t.succeeded == success_count(outcomes@),
        t.succeeded + t.failed == outcomes@.len(),
{
    let mut succeeded: usize = 0;
    let mut failed: usize = 0;
    let mut i: usize = 0;
    while i < outcomes.len()
        invariant
            i <= outcomes@.len(),
            succeeded == success_count(outcomes@.take(i as int)),
            succeeded + failed == i,
        decreases outcomes.len() - i,
    {
        assert(outcomes@.take(i + 1).drop_last() =~= outcomes@.take(i as int));
        if outcomes[i] {
            succeeded = succeeded + 1;
        } else {
            failed = failed + 1;
        }
        i = i + 1;
    }
    assert(outcomes@.take(i as int) =~= outcomes@);
    BatchTally { succeeded, failed }
}

} // verus!
