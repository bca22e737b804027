//! The settings of the tool: their keys and default values.

use vstd::prelude::*;
use crate::text::str_eq;

verus! {

/// A setting's key.
pub enum ConfigKey {
    Cookie,
    DbPath,
    DownloadDir,
    OutputFormat,
    UserAgent,
    Timeout,
}

/// The name of a key, as given on the command line and in the file.
pub open spec fn key_name_spec(k: ConfigKey) -> Seq<char> {
    match k {
        ConfigKey::Cookie => "cookie"@,
        ConfigKey::DbPath => "db_path"@,
        ConfigKey::DownloadDir => "download_dir"@,
        ConfigKey::OutputFormat => "output_format"@,
        ConfigKey::UserAgent => "user_agent"@,
        ConfigKey::Timeout => "timeout"@,
    }
}

/// The name of a key.
pub fn key_name(k: &ConfigKey) -> (r: &'static str)
    ensures
        r@ == key_name_spec(*k),
{
    match k {
        ConfigKey::Cookie => "cookie",
        ConfigKey::DbPath => "db_path",
        ConfigKey::DownloadDir => "download_dir",
        ConfigKey::OutputFormat => "output_format",
        ConfigKey::UserAgent => "user_agent",
        ConfigKey::Timeout => "timeout",
    }
}

/// The key named `name`, if there is one: the keys' names are distinct,
/// so at most one matches.
pub fn parse_config_key(name: &str) -> (r: Option<ConfigKey>)
    ensures
        match r {
            Some(k) => key_name_spec(k) == name@,
            None => forall|k: ConfigKey| key_name_spec(k) != name@,
        },
{
    proof {
        reveal_strlit("cookie");
        reveal_strlit("db_path");
        reveal_strlit("download_dir");
        reveal_strlit("output_format");
        reveal_strlit("user_agent");
        reveal_strlit("timeout");
    }
    if str_eq(name, "cookie") {
        Some(ConfigKey::Cookie)
    } else if str_eq(name, "db_path") {
        Some(ConfigKey::DbPath)
    } else if str_eq(name, "download_dir") {
        Some(ConfigKey::DownloadDir)
    } else if str_eq(name, "output_format") {
        Some(ConfigKey::OutputFormat)
    } else if str_eq(name, "user_agent") {
        Some(ConfigKey::UserAgent)
    } else if str_eq(name, "timeout") {
        Some(ConfigKey::Timeout)
    } else {
        None
    }
}

/// Distinct keys have distinct names, so a name read back from the
/// command line or the file selects the key it was written for.
pub proof fn lemma_key_names_distinct(a: ConfigKey, b: ConfigKey)
    requires
        key_name_spec(a) == key_name_spec(b),
    ensures
        a == b,
{
    reveal_strlit("cookie");
    reveal_strlit("db_path");
    reveal_strlit("download_dir");
    reveal_strlit("output_format");
    reveal_strlit("user_agent");
    reveal_strlit("timeout");
    assert("cookie"@.len() == 6);
    assert("db_path"@.len() == 7);
    assert("download_dir"@.len() == 12);
    assert("output_format"@.len() == 13);
    assert("user_agent"@.len() == 10);
    assert("timeout"@.len() == 7);
    assert("db_path"@[0] != "timeout"@[0]);
    match a {
        ConfigKey::Cookie => assert(b is Cookie),
        ConfigKey::DbPath => assert(b is DbPath),
        ConfigKey::DownloadDir => assert(b is DownloadDir),
        ConfigKey::OutputFormat => assert(b is OutputFormat),
        ConfigKey::UserAgent => assert(b is UserAgent),
        ConfigKey::Timeout => assert(b is Timeout),
    }
}

/// The database file used unless set otherwise.
pub const DEFAULT_DB_PATH: &'static str = "gequke.db";

/// The download directory used unless set otherwise.
pub const DEFAULT_DOWNLOAD_DIR: &'static str = "downloads";

/// The output format used unless set otherwise.
pub const DEFAULT_OUTPUT_FORMAT: &'static str = "table";

/// The browser identity sent unless set otherwise.
pub const DEFAULT_USER_AGENT: &'static str = "Mozilla/5.0 (Windows NT 10.0; Win64; x64) AppleWebKit/537.36 (KHTML, like Gecko) Chrome/131.0.0.0 Safari/537.36";

/// The setting file's name, in the tool's configuration directory.
pub const CONFIG_FILE_NAME: &'static str = "config.json";

/// The tool's configuration directory, under the user's one.
pub const CONFIG_DIR_NAME: &'static str = "gequ";

} // verus!
