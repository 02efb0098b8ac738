use deploy_manager::catalog::{create_version, upload_version, UploadForm};
use deploy_manager::checkin::{
    artifact_url, check_needs_update, checkin, create_update_log, find_open_log,
    handle_checkin, handle_update_result, report_update_result, result_log_status,
    update_log_status,
};
use deploy_manager::checksum::{compute_checksum, verify_checksum};
use deploy_manager::models::{
    ApiError, CheckinAction, CheckinRequest, Client, ClientConfig, ClientStatus, LogStatus,
    RegisterClientRequest, UpdateResultRequest, Version,
};
use deploy_manager::registry::{deploy_to_client, register_client};

fn client() -> Client {
    register_client(
        RegisterClientRequest { name: "alpha".to_string(), config: None },
        "c-1".to_string(),
        "tok".to_string(),
        0,
    )
}

fn version(v: &str, data: &[u8]) -> Version {
    let plan = upload_version(
        UploadForm {
            version: Some(v.to_string()),
            artifact: Some(data.to_vec()),
            file_name: None,
            release_notes: None,
        },
        false,
    )
    .ok()
    .expect("accepted");
    create_version(plan, format!("v-{}", v), 0)
}

fn req(current: Option<&str>) -> CheckinRequest {
    CheckinRequest { current_version: current.map(|s| s.to_string()), status: "online".to_string() }
}

fn result(v: &str, success: bool, rolled_back: bool) -> UpdateResultRequest {
    UpdateResultRequest {
        version: v.to_string(),
        success,
        error_message: if success { None } else { Some("boom".to_string()) },
        rolled_back,
    }
}

#[test]
fn deploy_then_older_checkin_dispatches_update() {
    let v2 = version("2.0.0", b"two");
    let mut c = client();
    deploy_to_client(&mut c, Some(&v2), 1).ok().expect("deployed");
    let resp = checkin(&mut c, &req(Some("1.0.0")), Some(&v2), 2).ok().expect("ok");
    assert_eq!(resp.action, CheckinAction::Update);
    assert_eq!(resp.target_version.as_deref(), Some("2.0.0"));
    assert_eq!(resp.artifact_url.as_deref(), Some("/api/artifacts/2.0.0"));
    assert_eq!(resp.checksum.as_deref(), Some(v2.checksum.as_str()));
    assert!(resp.config.is_none());
    assert_eq!(c.current_version.as_deref(), Some("1.0.0"));
}

#[test]
fn after_success_report_next_checkin_is_none() {
    let v2 = version("2.0.0", b"two");
    let mut c = client();
    deploy_to_client(&mut c, Some(&v2), 1).ok().expect("deployed");
    checkin(&mut c, &req(Some("1.0.0")), Some(&v2), 2).ok().expect("ok");
    let r = report_update_result(&mut c, &result("2.0.0", true, false), 3);
    assert_eq!(r.message, "Update success recorded");
    assert_eq!(c.current_version.as_deref(), Some("2.0.0"));
    assert!(c.target_version.is_none());
    let resp = checkin(&mut c, &req(Some("2.0.0")), None, 4).ok().expect("ok");
    assert_eq!(resp.action, CheckinAction::Nothing);
    assert!(resp.target_version.is_none() && resp.artifact_url.is_none() && resp.checksum.is_none());
}

#[test]
fn failure_report_marks_error_and_keeps_desired() {
    let v = version("1.1.0", b"x");
    let mut c = client();
    deploy_to_client(&mut c, Some(&v), 1).ok().expect("deployed");
    checkin(&mut c, &req(None), Some(&v), 2).ok().expect("ok");
    let r = report_update_result(&mut c, &result("1.1.0", false, false), 3);
    assert_eq!(r.message, "Update failure recorded");
    assert_eq!(r.error.as_deref(), Some("boom"));
    assert_eq!(c.status, ClientStatus::Error);
    assert_eq!(c.target_version.as_deref(), Some("1.1.0"));
}

#[test]
fn duplicate_checkin_redelivers_then_settles() {
    let v = version("1.0.0", b"A");
    let mut c = client();
    deploy_to_client(&mut c, Some(&v), 1).ok().expect("deployed");
    let a = checkin(&mut c, &req(None), Some(&v), 2).ok().expect("ok");
    let b = checkin(&mut c, &req(None), Some(&v), 3).ok().expect("ok");
    assert_eq!(a.action, CheckinAction::Update);
    assert_eq!(b.action, CheckinAction::Update);
    assert_eq!(a.target_version, b.target_version);
    report_update_result(&mut c, &result("1.0.0", true, false), 4);
    report_update_result(&mut c, &result("1.0.0", true, false), 5);
    let n = checkin(&mut c, &req(Some("1.0.0")), None, 6).ok().expect("ok");
    assert_eq!(n.action, CheckinAction::Nothing);
    assert_eq!(c.current_version.as_deref(), Some("1.0.0"));
}

#[test]
fn happy_path_end_to_end() {
    let data = vec![b'A'; 1024];
    let v = version("1.0.0", &data);
    assert_eq!(v.checksum, compute_checksum(&data));
    let mut c = client();
    deploy_to_client(&mut c, Some(&v), 1).ok().expect("deployed");
    let resp = checkin(&mut c, &req(None), Some(&v), 2).ok().expect("ok");
    assert_eq!(resp.action, CheckinAction::Update);
    assert!(verify_checksum(&data, resp.checksum.as_deref().unwrap()));
    report_update_result(&mut c, &result("1.0.0", true, false), 3);
    let next = checkin(&mut c, &req(Some("1.0.0")), None, 4).ok().expect("ok");
    assert_eq!(next.action, CheckinAction::Nothing);
    assert_eq!(c.current_version.as_deref(), Some("1.0.0"));
}

#[test]
fn same_version_checkin_is_none_and_keeps_desired() {
    let v = version("1.0.0", b"A");
    let mut c = client();
    deploy_to_client(&mut c, Some(&v), 1).ok().expect("deployed");
    let resp = checkin(&mut c, &req(Some("1.0.0")), Some(&v), 2).ok().expect("ok");
    assert_eq!(resp.action, CheckinAction::Nothing);
    assert_eq!(c.target_version.as_deref(), Some("1.0.0"));
}

#[test]
fn checkin_with_unknown_status_is_a_validation_error() {
    let mut c = client();
    let r = checkin(&mut c, &CheckinRequest { current_version: None, status: "asleep".to_string() }, None, 1);
    assert_eq!(r.err(), Some(ApiError::Validation));
    assert!(c.last_seen.is_none());
}

#[test]
fn config_is_sent_only_when_set() {
    let mut c = client();
    c.config = ClientConfig { service_dir: Some("/srv/app".to_string()), ..Default::default() };
    let resp = checkin(&mut c, &req(None), None, 1).ok().expect("ok");
    assert_eq!(resp.config.and_then(|x| x.service_dir).as_deref(), Some("/srv/app"));
}

#[test]
fn needs_update_rules() {
    let s = |x: &str| Some(x.to_string());
    assert!(!check_needs_update(&None, &s("1.0.0")));
    assert!(check_needs_update(&s("1.0.0"), &None));
    assert!(check_needs_update(&s("1.0.0"), &s("0.9.0")));
    assert!(!check_needs_update(&s("1.0.0"), &s("1.0.0")));
    assert_eq!(artifact_url("3.1.4"), "/api/artifacts/3.1.4");
}

#[test]
fn rolled_back_failure_finalizes_log_as_rolled_back() {
    let mut log = create_update_log("l-1".to_string(), "c-1", &None, "1.2.0", 10);
    assert_eq!(log.status, LogStatus::Pending);
    let st = result_log_status(&result("1.2.0", false, true));
    assert_eq!(st, LogStatus::RolledBack);
    update_log_status(&mut log, st, Some("restart failed".to_string()), 20);
    assert_eq!(log.status, LogStatus::RolledBack);
    assert_eq!(log.completed_at, Some(20));
    update_log_status(&mut log, LogStatus::Completed, None, 30);
    assert_eq!(log.status, LogStatus::RolledBack);
    assert_eq!(log.completed_at, Some(20));
}

#[test]
fn log_statuses_of_reports() {
    assert_eq!(result_log_status(&result("1.0.0", true, false)), LogStatus::Completed);
    assert_eq!(result_log_status(&result("1.0.0", false, false)), LogStatus::Failed);
    let mut log = create_update_log("l".to_string(), "c", &None, "1.0.0", 1);
    update_log_status(&mut log, LogStatus::Downloading, None, 2);
    assert_eq!(log.status, LogStatus::Downloading);
    assert!(log.completed_at.is_none());
}

#[test]
fn most_recent_open_log_is_chosen() {
    let mut a = create_update_log("a".to_string(), "c-1", &None, "1.0.0", 10);
    let b = create_update_log("b".to_string(), "c-1", &None, "1.0.0", 20);
    let other = create_update_log("o".to_string(), "c-2", &None, "1.0.0", 30);
    let logs = vec![a.clone(), b, other];
    assert_eq!(find_open_log(&logs, "c-1", "1.0.0"), Some(1));
    update_log_status(&mut a, LogStatus::Completed, None, 11);
    let logs = vec![a];
    assert_eq!(find_open_log(&logs, "c-1", "1.0.0"), None);
}

#[test]
fn checkin_endpoint_without_key_is_unauthorized() {
    let r = handle_checkin(None, Some(client()), &req(None), None, "log", 1);
    assert_eq!(r.err(), Some(ApiError::Unauthorized));
}

#[test]
fn checkin_endpoint_with_unknown_key_is_unauthorized() {
    let r = handle_checkin(Some("other"), None, &req(None), None, "log", 1);
    assert_eq!(r.err(), Some(ApiError::Unauthorized));
    let r = handle_checkin(Some("other"), Some(client()), &req(None), None, "log", 1);
    assert_eq!(r.err(), Some(ApiError::Unauthorized));
}

#[test]
fn checkin_endpoint_opens_pending_log_only_for_updates() {
    let v = version("2.0.0", b"two");
    let mut c = client();
    deploy_to_client(&mut c, Some(&v), 1).ok().expect("deployed");
    let o = handle_checkin(Some("tok"), Some(c.clone()), &req(Some("1.0.0")), Some(&v), "log-7", 5)
        .ok()
        .expect("ok");
    assert_eq!(o.response.action, CheckinAction::Update);
    let log = o.new_log.expect("log");
    assert_eq!(log.id, "log-7");
    assert_eq!(log.client_id, "c-1");
    assert_eq!(log.from_version.as_deref(), Some("1.0.0"));
    assert_eq!(log.to_version, "2.0.0");
    assert_eq!(log.status, LogStatus::Pending);
    assert_eq!(log.started_at, 5);
    assert!(log.completed_at.is_none());
    assert_eq!(o.client.last_seen, Some(5));
    let o = handle_checkin(Some("tok"), Some(o.client), &req(Some("2.0.0")), Some(&v), "log-8", 6)
        .ok()
        .expect("ok");
    assert_eq!(o.response.action, CheckinAction::Nothing);
    assert!(o.new_log.is_none());
}

#[test]
fn result_endpoint_closes_latest_open_log() {
    let mut c = client();
    let v = version("1.2.0", b"x");
    deploy_to_client(&mut c, Some(&v), 1).ok().expect("deployed");
    let older = create_update_log("a".to_string(), "c-1", &None, "1.2.0", 10);
    let newer = create_update_log("b".to_string(), "c-1", &None, "1.2.0", 20);
    let other = create_update_log("o".to_string(), "c-1", &None, "9.9.9", 30);
    let logs = vec![older, newer, other];
    let o = handle_update_result(Some("tok"), Some(c), &result("1.2.0", false, true), &logs, 40)
        .ok()
        .expect("ok");
    let closed = o.closed_log.expect("closed");
    assert_eq!(closed.id, "b");
    assert_eq!(closed.status, LogStatus::RolledBack);
    assert_eq!(closed.error_message.as_deref(), Some("boom"));
    assert_eq!(closed.completed_at, Some(40));
    assert_eq!(o.client.status, ClientStatus::Error);
    assert_eq!(o.client.target_version.as_deref(), Some("1.2.0"));
}

#[test]
fn result_endpoint_success_completes_log_and_refuses_bad_key() {
    let c = client();
    let logs = vec![create_update_log("a".to_string(), "c-1", &None, "1.0.0", 10)];
    let r = handle_update_result(None, Some(c.clone()), &result("1.0.0", true, false), &logs, 11);
    assert_eq!(r.err(), Some(ApiError::Unauthorized));
    let r = handle_update_result(Some("x"), Some(c.clone()), &result("1.0.0", true, false), &logs, 11);
    assert_eq!(r.err(), Some(ApiError::Unauthorized));
    let o = handle_update_result(Some("tok"), Some(c), &result("1.0.0", true, false), &logs, 11).ok().expect("ok");
    let closed = o.closed_log.expect("closed");
    assert_eq!(closed.status, LogStatus::Completed);
    assert_eq!(o.client.current_version.as_deref(), Some("1.0.0"));
    let o = handle_update_result(Some("tok"), Some(o.client), &result("2.0.0", true, false), &logs, 12).ok().expect("ok");
    assert!(o.closed_log.is_none());
}

#[test]
fn open_log_ties_go_to_the_later_entry() {
    let a = create_update_log("a".to_string(), "c-1", &None, "1.0.0", 10);
    let b = create_update_log("b".to_string(), "c-1", &None, "1.0.0", 10);
    assert_eq!(find_open_log(&vec![a, b], "c-1", "1.0.0"), Some(1));
}
