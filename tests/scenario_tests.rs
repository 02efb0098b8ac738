use deploy_manager::archive::check_archive;
use deploy_manager::catalog::{create_version, upload_version, UploadForm};
use deploy_manager::checkin::{checkin, create_update_log, report_update_result, result_log_status, update_log_status};
use deploy_manager::checksum::{compute_checksum, verify_checksum};
use deploy_manager::models::{
    CheckinAction, CheckinRequest, Client, ClientStatus, LogStatus, RegisterClientRequest, Version,
};
use deploy_manager::offline::{default_artifact, resolve_offline, start_offline, UsbManifest};
use deploy_manager::polling::PollingDaemon;
use deploy_manager::registry::{deploy_to_client, register_client};
use deploy_manager::transaction::{Outcome, Step, StepResult, Transaction};

fn alpha() -> Client {
    register_client(
        RegisterClientRequest { name: "alpha".to_string(), config: None },
        "c-alpha".to_string(),
        "tok".to_string(),
        0,
    )
}

fn upload(v: &str, data: &[u8]) -> Version {
    let form = UploadForm { version: Some(v.to_string()), artifact: Some(data.to_vec()), file_name: None, release_notes: None };
    create_version(upload_version(form, false).ok().expect("accepted"), format!("id-{}", v), 0)
}

fn online(current: Option<&str>) -> CheckinRequest {
    CheckinRequest { current_version: current.map(|s| s.to_string()), status: "online".to_string() }
}

fn tar_gz(files: &[(&str, &[u8])]) -> Vec<u8> {
    let enc = flate2::write::GzEncoder::new(Vec::new(), flate2::Compression::default());
    let mut b = tar::Builder::new(enc);
    for (path, data) in files {
        let mut h = tar::Header::new_gnu();
        h.set_path(path).unwrap();
        h.set_size(data.len() as u64);
        h.set_mode(0o644);
        h.set_cksum();
        b.append(&h, *data).unwrap();
    }
    b.into_inner().unwrap().finish().unwrap()
}

/// Runs a transaction, answering each step from `answer`, and returns the steps seen.
fn drive(mut t: Transaction, mut answer: impl FnMut(Step) -> StepResult) -> (Vec<Step>, Outcome) {
    let mut steps = Vec::new();
    loop {
        let step = t.next_step();
        steps.push(step);
        if let Step::Report(o) = step {
            return (steps, o);
        }
        t.advance(answer(step));
    }
}

#[test]
fn checksum_mismatch_scenario_reports_failure_before_backup() {
    let data = b"release 1.1.0".to_vec();
    let v = upload("1.1.0", &data);
    let mut corrupted = data.clone();
    corrupted[0] ^= 1;
    let mut c = alpha();
    deploy_to_client(&mut c, Some(&v), 1).ok().expect("deployed");
    let resp = checkin(&mut c, &online(None), Some(&v), 2).ok().expect("ok");
    let plan = PollingDaemon::plan_update(&resp).expect("update");
    let t = PollingDaemon::start_update(&plan, &None, &None);
    let (steps, outcome) = drive(t, |s| match s {
        Step::VerifyChecksum => {
            if verify_checksum(&corrupted, &plan.checksum) { StepResult::Done } else { StepResult::Failed }
        }
        _ => StepResult::Done,
    });
    assert_eq!(outcome, Outcome::Aborted);
    assert!(!steps.contains(&Step::Backup));
    assert!(!steps.contains(&Step::Swap));
    let report = PollingDaemon::result_report(&plan.target_version, outcome, Some("checksum".to_string()));
    report_update_result(&mut c, &report, 3);
    assert_eq!(c.status, ClientStatus::Error);
    assert_eq!(c.target_version.as_deref(), Some("1.1.0"));
}

#[test]
fn bad_restart_scenario_ends_rolled_back_in_the_log() {
    let data = tar_gz(&[("app/index.js", b"v1.2.0")]);
    let v = upload("1.2.0", &data);
    let mut c = alpha();
    deploy_to_client(&mut c, Some(&v), 1).ok().expect("deployed");
    let resp = checkin(&mut c, &online(Some("1.1.0")), Some(&v), 2).ok().expect("ok");
    assert_eq!(resp.action, CheckinAction::Update);
    let mut log = create_update_log("log-1".to_string(), &c.id, &Some("1.1.0".to_string()), "1.2.0", 2);
    let plan = PollingDaemon::plan_update(&resp).expect("update");
    let t = PollingDaemon::start_update(&plan, &Some("1.1.0".to_string()), &Some("1.1.0".to_string()));
    let mut restarts = 0;
    let (steps, outcome) = drive(t, |s| match s {
        Step::VerifyChecksum => {
            if verify_checksum(&data, &plan.checksum) { StepResult::Done } else { StepResult::Failed }
        }
        Step::Extract => if check_archive(&data).is_ok() { StepResult::Done } else { StepResult::Failed },
        Step::Restart => {
            restarts += 1;
            if restarts == 1 { StepResult::Failed } else { StepResult::Done }
        }
        _ => StepResult::Done,
    });
    assert_eq!(outcome, Outcome::RolledBack);
    let n = steps.len();
    assert_eq!(&steps[n - 4..n - 1], &[Step::RestoreBackup, Step::WritePreviousMarker, Step::Restart]);
    let report = PollingDaemon::result_report(&plan.target_version, outcome, Some("restart failed".to_string()));
    assert!(!report.success && report.rolled_back);
    report_update_result(&mut c, &report, 3);
    update_log_status(&mut log, result_log_status(&report), report.error_message.clone(), 3);
    assert_eq!(log.status, LogStatus::RolledBack);
    assert_eq!(c.status, ClientStatus::Error);
}

#[test]
fn offline_apply_scenario_completes_without_server() {
    let data = tar_gz(&[("app/index.js", b"offline")]);
    let manifest = UsbManifest {
        version: "1.3.0".to_string(),
        checksum: compute_checksum(&data),
        artifact: default_artifact(),
        release_notes: Some("notes".to_string()),
    };
    let plan = resolve_offline(&None, &None, Some(&manifest)).ok().expect("plan");
    assert_eq!(plan.target_version, "1.3.0");
    let t = start_offline(&plan, &None, &None);
    let checksum = plan.checksum.clone().expect("checksum");
    let (steps, outcome) = drive(t, |s| match s {
        Step::VerifyChecksum => if verify_checksum(&data, &checksum) { StepResult::Done } else { StepResult::Failed },
        Step::Backup => StepResult::NothingToBackUp,
        Step::Extract => if check_archive(&data).is_ok() { StepResult::Done } else { StepResult::Failed },
        _ => StepResult::Done,
    });
    assert_eq!(outcome, Outcome::Completed);
    assert_eq!(steps[0], Step::VerifyChecksum);
    assert!(!steps.contains(&Step::Download));
    assert!(steps.contains(&Step::WriteTargetMarker));
}
