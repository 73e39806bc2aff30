use srfax_sync::config::get_config_location;
use srfax_sync::config::get_srfax_location;
use srfax_sync::config::default_srfaxes;
use srfax_sync::config::Config;
use srfax_sync::email::alert_message;
use srfax_sync::email::alert_subject;
use srfax_sync::email::email_subject_prefix;
use srfax_sync::response::DownloadFormat;

#[test]
fn fixed_file_locations() {
    assert_eq!(get_config_location(), "config.json");
    assert_eq!(get_srfax_location(), "srfaxes.json");
}

#[test]
fn default_config_values() {
    let c = Config::default();
    assert_eq!(c.tick_rate, 5);
    assert_eq!(c.log.level, "info");
    assert!(c.log.dir.is_none());
    assert!(c.log.stdout);
    assert!(!c.email.enabled);
    assert!(c.email.recipients.is_empty());
    assert_eq!(c.email.from, "");
    assert_eq!(c.email.server, "127.0.0.1");
    assert_eq!(c.email.domain, "");
    assert_eq!(c.email.port, 25);
}

#[test]
fn default_account_list() {
    let v = default_srfaxes();
    assert_eq!(v.len(), 1);
    assert_eq!(v[0].name, "Example 1");
    assert_eq!(v[0].access_id, "");
    assert_eq!(v[0].access_pwd, "");
    assert_eq!(v[0].file_dir, "srfax1");
    assert_eq!(v[0].download_fmt, DownloadFormat::PDF);
    assert!(!v[0].delete_after);
}

#[test]
fn alert_subject_is_prefixed() {
    assert_eq!(email_subject_prefix(), "SRFax Service: ");
    assert_eq!(alert_subject("error running"), "SRFax Service: error running");
}

#[test]
fn alert_message_carries_date_line() {
    assert_eq!(
        alert_message("2024-01-01", "something broke"),
        "Date: 2024-01-01\nsomething broke\n"
    );
}
