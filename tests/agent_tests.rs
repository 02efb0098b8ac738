use deploy_manager::agent::{is_within, join_path, Config, ConfigError, Settings, Updater};
use deploy_manager::models::{CheckinAction, CheckinResponse};
use deploy_manager::offline::{
    artifact_in_directory, default_artifact, resolve_offline, start_offline,
    ApplyError, UsbManifest,
};
use deploy_manager::polling::{DmApiClient, PollingDaemon};
use deploy_manager::server_config::Config as ServerConfig;
use deploy_manager::text::{parse_decimal, trim_blanks};
use deploy_manager::transaction::{Outcome, Stage, Step};

fn settings(url: Option<&str>, key: Option<&str>) -> Settings {
    Settings {
        server_url: url.map(|s| s.to_string()),
        api_key: key.map(|s| s.to_string()),
        poll_interval: None,
        service_dir: None,
        backup_dir: None,
        restart_command: None,
        health_check_command: None,
    }
}

fn config() -> Config {
    Config::from_settings(settings(Some("http://dms"), Some("k"))).ok().expect("config")
}

#[test]
fn daemon_settings_take_defaults() {
    let c = config();
    assert_eq!(c.poll_interval_secs, 30);
    assert_eq!(c.service_dir, "./service");
    assert_eq!(c.backup_dir, "./backups");
    assert_eq!(c.restart_command, "pm2 restart all");
    assert!(c.health_check_command.is_none());
}

#[test]
fn daemon_settings_need_url_and_key() {
    assert_eq!(Config::from_settings(settings(None, Some("k"))).err(), Some(ConfigError::MissingServerUrl));
    assert_eq!(Config::from_settings(settings(Some("u"), None)).err(), Some(ConfigError::MissingApiKey));
}

#[test]
fn poll_interval_parses_or_defaults() {
    let mut s = settings(Some("u"), Some("k"));
    s.poll_interval = Some("5".to_string());
    assert_eq!(Config::from_settings(s).ok().unwrap().poll_interval_secs, 5);
    let mut s = settings(Some("u"), Some("k"));
    s.poll_interval = Some("soon".to_string());
    assert_eq!(Config::from_settings(s).ok().unwrap().poll_interval_secs, 30);
}

#[test]
fn backup_inside_service_is_refused() {
    let mut s = settings(Some("u"), Some("k"));
    s.service_dir = Some("/srv/app".to_string());
    s.backup_dir = Some("/srv/app/backups".to_string());
    assert_eq!(Config::from_settings(s).err(), Some(ConfigError::BackupNotSibling));
    let mut s = settings(None, None);
    s.service_dir = Some("/srv".to_string());
    s.backup_dir = Some("/srv".to_string());
    assert_eq!(Config::local_from_settings(s).err(), Some(ConfigError::BackupNotSibling));
}

#[test]
fn local_settings_need_no_server() {
    let c = Config::local_from_settings(settings(None, None)).ok().expect("config");
    assert_eq!(c.server_url, "");
    assert_eq!(c.service_dir, "./service");
}

#[test]
fn within_is_by_whole_components() {
    assert!(is_within("/srv/app", "/srv/app"));
    assert!(is_within("/srv/app", "/srv/app/x"));
    assert!(!is_within("/srv/app", "/srv/app2"));
    assert!(!is_within("/srv/app", "/srv"));
}

#[test]
fn backup_name_and_location() {
    assert_eq!(Updater::backup_name("1.0.0", "20240101_000000"), "backup_1.0.0_20240101_000000");
    assert_eq!(Updater::backup_name("a/b", "x"), "backup_a_b_x");
    let u = Updater::new(config());
    assert_eq!(u.backup_location("1.1.0", 0), "./backups/backup_1.1.0_19700101_000000");
    assert_eq!(u.backup_location("1.1.0", 86_461), "./backups/backup_1.1.0_19700102_000101");
    assert_eq!(u.backup_current_path("unknown", 0).as_deref(), Some("./backups/backup_unknown_19700101_000000"));
    assert_eq!(u.backup_current_path("1.0.0", -1), None);
    assert_eq!(u.backup_current_path("1.0.0", 253_402_300_800), None);
    assert_eq!(
        u.backup_current_path("1.0.0", 253_402_300_799).as_deref(),
        Some("./backups/backup_1.0.0_99991231_235959")
    );
}

#[test]
fn updater_verifies_checksums() {
    let u = Updater::new(config());
    assert!(u.verify_checksum(b"abc", "ba7816bf8f01cfea414140de5dae2223b00361a396177a9cb410ff61f20015ad"));
    assert!(!u.verify_checksum(b"abd", "ba7816bf8f01cfea414140de5dae2223b00361a396177a9cb410ff61f20015ad"));
}

#[test]
fn api_client_urls() {
    let api = DmApiClient::new("http://dms:3000//", "k");
    assert_eq!(api.server_url, "http://dms:3000");
    assert_eq!(api.checkin_url(), "http://dms:3000/api/checkin");
    assert_eq!(api.result_url(), "http://dms:3000/api/update-result");
    assert_eq!(api.download_url("/api/artifacts/1.0.0"), "http://dms:3000/api/artifacts/1.0.0");
    assert_eq!(api.download_url("https://cdn/x"), "https://cdn/x");
    let req = DmApiClient::checkin_request(&None);
    assert_eq!(req.status, "online");
}

#[test]
fn version_marker_is_trimmed() {
    assert_eq!(PollingDaemon::read_current_version(Some(" 1.0.0\n")).as_deref(), Some("1.0.0"));
    assert_eq!(PollingDaemon::read_current_version(Some("\n")), None);
    assert_eq!(PollingDaemon::read_current_version(None), None);
    assert_eq!(trim_blanks("\t a b \r\n"), "a b");
    assert_eq!(PollingDaemon::read_current_version(Some("1\u{b}")).as_deref(), Some("1"));
    assert_eq!(trim_blanks("\u{a0}\u{2003}1.0.0\u{85}\u{3000}"), "1.0.0");
    assert_eq!(PollingDaemon::read_current_version(Some("\u{a0}\u{c}")), None);
}

#[test]
fn update_directive_becomes_a_plan_and_transaction() {
    let resp = CheckinResponse {
        action: CheckinAction::Update,
        target_version: Some("1.2.0".to_string()),
        artifact_url: None,
        checksum: Some("ab".to_string()),
        config: None,
    };
    let plan = PollingDaemon::plan_update(&resp).expect("plan");
    assert_eq!(plan.target_version, "1.2.0");
    assert_eq!(plan.artifact_url, "");
    let t = PollingDaemon::start_update(&plan, &Some("1.1.0".to_string()), &Some(" 1.1.0\n".to_string()));
    assert_eq!(t.previous_marker.as_deref(), Some(" 1.1.0\n"));
    assert_eq!(t.next_step(), Step::Download);
    let none = CheckinResponse { action: CheckinAction::Nothing, target_version: None, artifact_url: None, checksum: None, config: None };
    assert!(PollingDaemon::plan_update(&none).is_none());
    let daemon = PollingDaemon::new(config());
    assert_eq!(daemon.config.poll_interval_secs, 30);
}

#[test]
fn reports_follow_the_outcome() {
    let r = PollingDaemon::result_report("1.2.0", Outcome::RolledBack, Some("restart".to_string()));
    assert!(!r.success && r.rolled_back);
    assert_eq!(r.error_message.as_deref(), Some("restart"));
    let r = PollingDaemon::result_report("1.2.0", Outcome::Completed, Some("x".to_string()));
    assert!(r.success && !r.rolled_back && r.error_message.is_none());
    let r = PollingDaemon::result_report("1.2.0", Outcome::Aborted, None);
    assert!(!r.success && !r.rolled_back);
}

fn manifest() -> UsbManifest {
    UsbManifest {
        version: "2.0.0".to_string(),
        checksum: "cafe".to_string(),
        artifact: default_artifact(),
        release_notes: None,
    }
}

#[test]
fn offline_command_line_wins_over_manifest() {
    let m = manifest();
    let p = resolve_offline(&Some("3.0.0".to_string()), &None, Some(&m)).ok().unwrap();
    assert_eq!(p.target_version, "3.0.0");
    assert_eq!(p.checksum.as_deref(), Some("cafe"));
    let p = resolve_offline(&None, &None, Some(&m)).ok().unwrap();
    assert_eq!(p.target_version, "2.0.0");
}

#[test]
fn offline_without_version_is_refused_and_without_checksum_skips_check() {
    assert_eq!(resolve_offline(&None, &None, None).err(), Some(ApplyError::MissingVersion));
    let p = resolve_offline(&Some("1.0.0".to_string()), &None, None).ok().unwrap();
    assert!(p.checksum.is_none());
    let t = start_offline(&p, &None, &None);
    assert_eq!(t.stage, Stage::Backup);
}

#[test]
fn offline_directory_apply_uses_manifest() {
    let m = manifest();
    assert_eq!(default_artifact(), "update.tar.gz");
    assert_eq!(artifact_in_directory("/mnt/usb", &m).ok().unwrap(), "/mnt/usb/update.tar.gz");
    let p = resolve_offline(&Some(m.version.clone()), &Some(m.checksum.clone()), Some(&m)).ok().unwrap();
    let t = start_offline(&p, &Some("1.0.0".to_string()), &Some("1.0.0".to_string()));
    assert_eq!(t.next_step(), Step::VerifyChecksum);
    assert_eq!(t.target, "2.0.0");
    let bad = UsbManifest { artifact: "../x.tar.gz".to_string(), ..manifest() };
    assert_eq!(artifact_in_directory("/mnt/usb", &bad).err(), Some(ApplyError::UnsafeArtifactPath));
    assert_eq!(join_path("a", "b"), "a/b");
}

#[test]
fn server_settings_and_address() {
    let c = ServerConfig::from_values(Some("postgres://db".to_string()), None, None, None).expect("config");
    assert_eq!(c.server_addr(), "0.0.0.0:3000");
    assert_eq!(c.artifact_dir, "./artifacts");
    let c = ServerConfig::from_values(Some("d".to_string()), Some("127.0.0.1".to_string()), Some("8080".to_string()), None).unwrap();
    assert_eq!(c.server_addr(), "127.0.0.1:8080");
    let c = ServerConfig::from_values(Some("d".to_string()), None, Some("70000".to_string()), None).unwrap();
    assert_eq!(c.server_port, 3000);
    assert!(ServerConfig::from_values(None, None, None, None).is_none());
}

#[test]
fn decimal_parsing_bounds() {
    assert_eq!(parse_decimal("0", 10), Some(0));
    assert_eq!(parse_decimal("65535", 65535), Some(65535));
    assert_eq!(parse_decimal("65536", 65535), None);
    assert_eq!(parse_decimal("18446744073709551615", u64::MAX), Some(u64::MAX));
    assert_eq!(parse_decimal("18446744073709551616", u64::MAX), None);
    assert_eq!(parse_decimal("", 10), None);
    assert_eq!(parse_decimal("1a", 10), None);
}
