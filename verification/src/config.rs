//! Configuration records for the service and its accounts.
//!
//! Loading and persisting these records is a collaborator concern; the
//! library only defines their shapes, the fixed file locations, and the
//! default values that a fresh installation starts from.

use vstd::prelude::*;
use crate::response::DownloadFormat;

verus! {

/// Top-level service configuration.
#[derive(Debug)]
pub struct Config {
    pub tick_rate: u64,
    pub log: LogConfig,
    pub email: EmailConfig,
}

/// Log sink configuration, consumed by the unverified shell.
#[derive(Debug)]
pub struct LogConfig {
    pub level: String,
    pub dir: Option<String>,
    pub stdout: bool,
}

/// Operator-alert transport configuration, consumed by the unverified shell.
#[derive(Debug)]
pub struct EmailConfig {
    pub enabled: bool,
    pub recipients: Vec<String>,
    pub from: String,
    pub server: String,
    pub domain: String,
    pub port: u16,
}

/// One configured provider account: credentials, local target directory and
/// per-account policy.  Immutable for the duration of a cycle.
#[derive(Debug)]
pub struct Srfax {
    pub name: String,
    pub access_id: String,
    pub access_pwd: String,
    pub file_dir: String,
    pub download_fmt: DownloadFormat,
    pub delete_after: bool,
}

/// Fixed location of the service configuration file.
pub fn get_config_location() -> (r: &'static str)
    ensures
        r@ == "config.json"@,
{
    "config.json"
}

/// Fixed location of the account list file.
pub fn get_srfax_location() -> (r: &'static str)
    ensures
        r@ == "srfaxes.json"@,
{
    "srfaxes.json"
}

impl Default for Config {
    /// The configuration a fresh installation is written with.
    fn default() -> (c: Config)
        ensures
            c.tick_rate == 5,
            c.log.level@ == "info"@,
            c.log.dir is None,
            c.log.stdout,
            !c.email.enabled,
            c.email.recipients@.len() == 0,
            c.email.from@.len() == 0,
            c.email.server@ == "127.0.0.1"@,
            c.email.domain@.len() == 0,
            c.email.port == 25,
    {
        Config {
            tick_rate: 5,
            log: LogConfig { level: "info".to_owned(), dir: None, stdout: true },
            email: EmailConfig {
                enabled: false,
                recipients: Vec::new(),
                from: String::new(),
                server: "127.0.0.1".to_owned(),
                domain: String::new(),
                port: 25,
            },
        }
    }
}

/// The account list a fresh installation is written with: one example entry
/// that an operator fills in.
pub fn default_srfaxes() -> (v: Vec<Srfax>)
    ensures
        v@.len() == 1,
        v@[0].name@ == "Example 1"@,
        v@[0].access_id@.len() == 0,
        v@[0].access_pwd@.len() == 0,
        v@[0].file_dir@ == "srfax1"@,
        v@[0].download_fmt is PDF,
        !v@[0].delete_after,
{
    let mut v: Vec<Srfax> = Vec::new();
    v.push(Srfax {
        name: "Example 1".to_owned(),
        access_id: String::new(),
        access_pwd: String::new(),
        file_dir: "srfax1".to_owned(),
        download_fmt: DownloadFormat::PDF,
        delete_after: false,
    });
    v
}

} // verus!
