//! The commands of the `gequ` tool, as plain data. The program parses the
//! command line into these values and runs them.

use vstd::prelude::*;

verus! {

/// The tool's version.
pub const VERSION: &'static str = "0.1.0";

/// A parsed command line.
pub struct Cli {
    pub command: Commands,
}

/// The top-level commands.
pub enum Commands {
    /// Crawl a page of the site.
    Crawl(CrawlCommands),
    /// Download songs.
    Download(DownloadCommands),
    /// Look at the stored data.
    Db(DbCommands),
    /// Appearance statistics.
    Stats(StatsCommands),
    /// Search the site for a keyword.
    Search { keyword: String, output: Option<String>, no_db: bool, file: Option<String> },
    /// Show or change the settings.
    Config(ConfigCommands),
    /// Print the version.
    Version,
}

/// What to crawl.
pub enum CrawlCommands {
    /// The home page.
    Homepage { file: Option<String>, output: Option<String>, no_db: bool },
    /// A ranking: one page, or the pages `start_page..=end_page`.
    Ranking {
        ranking_type: String,
        page: i32,
        start_page: Option<i32>,
        end_page: Option<i32>,
        file: Option<String>,
        output: Option<String>,
        no_db: bool,
    },
}

/// What to download.
pub enum DownloadCommands {
    /// One song.
    Song { song_id: i64, output: Option<String>, no_cover: bool, no_db: bool },
    /// Several songs.
    Songs { song_ids: Vec<i64>, output: Option<String>, no_db: bool },
}

/// What to show of the stored data.
pub enum DbCommands {
    /// The row counts.
    Stats,
    /// One singer, or the latest ones.
    Singer { name: Option<String>, number: i64 },
    /// One song, or the latest ones.
    Song { song_id: Option<i64>, number: i64 },
    /// The latest downloads.
    Download { number: i64 },
    /// The latest ranking entries.
    Ranking { ranking_type: Option<String>, number: i64 },
}

/// Which statistics to show.
pub enum StatsCommands {
    /// How often a song appeared.
    Song { song_id: i64, history: bool, number: i64 },
    /// How often a singer appeared.
    Singer { name: String, history: bool, number: i64 },
    /// The songs seen most often.
    TopSongs { number: i64, from: Option<String>, to: Option<String>, last: Option<String> },
    /// The singers seen most often.
    TopSingers { number: i64, from: Option<String>, to: Option<String>, last: Option<String> },
    /// The crawl history of a page type.
    History {
        page_type: String,
        ranking_type: Option<String>,
        number: i64,
        from: Option<String>,
        to: Option<String>,
        last: Option<String>,
    },
}

/// What to do with the settings.
pub enum ConfigCommands {
    /// Show all settings.
    Show,
    /// Set a value (`set` on the command line).
    SetValue { key: String, value: String },
    /// Show one setting.
    Get { key: String },
    /// Restore the defaults.
    Reset,
}

} // verus!
