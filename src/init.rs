//! The configuration that the process starts from, as plain values.

use vstd::prelude::*;

verus! {

/// The whole configuration file.
pub struct Config {
    pub client: Client,
    pub params: Params,
    pub security: Security,
    pub i18n: I18n,
}

/// Identity and build of the running instance.
pub struct Client {
    pub version: String,
    pub build_type: String,
    pub dev: bool,
}

/// Operating parameters: the presence list, the command prefix and the
/// rotation interval in seconds.
pub struct Params {
    pub status: Vec<Status>,
    pub auto_status: bool,
    pub prefix: String,
    pub status_time: i32,
}

/// One presence entry as written in the configuration: the kind by name and
/// the text shown.
pub struct Status {
    pub status_type: String,
    pub message: String,
}

/// Settings of the encrypted archive.
pub struct Security {
    pub rewrite_archive_if_invalid: bool,
    pub auto_save_archive: bool,
}

/// Where the locale files are.
pub struct I18n {
    pub locales_dir: String,
}

} // verus!
