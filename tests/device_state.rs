use printnanny::octoprint::{
    authorization_header, authorization_value, current_job_filename, CurrentJob, JobFile, OctoPrintError,
};
use printnanny::cache::{on_fetch, on_persist, on_read, DiskRead, FetchStep, ReadStep};
use printnanny::gst::GstClient;
use printnanny::service::{
    ApiConfig, ApiService, DeviceRecord, Endpoint, FailureKind, ServiceError, ServicePaths,
};
use printnanny::task::{
    license_verdict, plan_license_check, plan_start, terminal_task_id, LicenseRecord, StartAction,
    TaskStatus, TaskSummary, TaskType, LICENSE_CHECK_FAILED_HELP, LICENSE_CHECK_FAILED_MSG,
    LICENSE_CHECK_SUCCESS_HELP, LICENSE_CHECK_SUCCESS_MSG,
};

fn license(id: i32, fingerprint: &str) -> LicenseRecord {
    LicenseRecord { id, device: 7, fingerprint: fingerprint.to_string() }
}

fn paths() -> ServicePaths {
    ServicePaths {
        api_config_json: "/data/api_config.json".to_string(),
        device_json: "/data/device.json".to_string(),
        license_json: "/data/license.json".to_string(),
    }
}

fn remote_error() -> ServiceError {
    ServiceError::Api {
        endpoint: Endpoint::DevicesRetrieveHostname,
        kind: FailureKind::Transport,
        message: "down".to_string(),
    }
}

#[test]
fn fingerprint_mismatch_fails_the_check() {
    let u = license_verdict(&license(1, "abc"), &license(1, "xyz"));
    assert_eq!(u.status, TaskStatus::Failed);
    assert_eq!(u.detail.as_deref(), Some(LICENSE_CHECK_FAILED_MSG));
    assert!(!u.detail.unwrap().is_empty());
    assert_eq!(u.wiki_url.as_deref(), Some(LICENSE_CHECK_FAILED_HELP));
}

#[test]
fn matching_license_succeeds() {
    let u = license_verdict(&license(1, "abc"), &license(1, "abc"));
    assert_eq!(u.status, TaskStatus::Success);
    assert_eq!(u.detail.as_deref(), Some(LICENSE_CHECK_SUCCESS_MSG));
    assert_eq!(u.wiki_url.as_deref(), Some(LICENSE_CHECK_SUCCESS_HELP));
}

#[test]
fn id_mismatch_fails_the_check() {
    let u = license_verdict(&license(1, "abc"), &license(2, "abc"));
    assert_eq!(u.status, TaskStatus::Failed);
}

#[test]
fn start_action_follows_last_status() {
    assert_eq!(plan_start(None), StartAction::CreateStarted);
    let t = |s| Some(TaskSummary { id: 4, last_status: s });
    assert_eq!(plan_start(t(None)), StartAction::CreateStarted);
    assert_eq!(plan_start(t(Some(TaskStatus::Started))), StartAction::Keep { task_id: 4 });
    assert_eq!(plan_start(t(Some(TaskStatus::Pending))), StartAction::Acknowledge { task_id: 4 });
    for s in [TaskStatus::Failed, TaskStatus::Success, TaskStatus::Timeout] {
        assert_eq!(plan_start(t(Some(s))), StartAction::CreateStarted);
        assert!(s.is_terminal());
    }
    assert!(!TaskStatus::Pending.is_terminal());
    assert!(!TaskStatus::Started.is_terminal());
}

#[test]
fn check_from_scratch_starts_then_finishes_once() {
    let p = plan_license_check(&license(1, "abc"), &license(1, "xyz"), None);
    assert_eq!(p.start, StartAction::CreateStarted);
    assert_eq!(p.finish.status, TaskStatus::Failed);
    assert_eq!(terminal_task_id(p.start, 31), 31);
    assert_eq!(terminal_task_id(StartAction::Keep { task_id: 5 }, 31), 5);
    assert_eq!(terminal_task_id(StartAction::Acknowledge { task_id: 6 }, 31), 6);
}

#[test]
fn cache_hit_is_returned_without_hydration() {
    match on_read(DiskRead::Found(3)) {
        ReadStep::Ready(v) => assert_eq!(v, 3),
        other => panic!("unexpected {:?}", other),
    }
    assert!(matches!(on_read::<i32>(DiskRead::Missing), ReadStep::Hydrate));
    assert!(matches!(on_read::<i32>(DiskRead::Corrupt), ReadStep::Hydrate));
}

#[test]
fn fetched_record_is_persisted_and_returned() {
    match on_fetch(Ok::<i32, ServiceError>(8)) {
        FetchStep::Persist(v) => assert_eq!(v, 8),
        other => panic!("unexpected {:?}", other),
    }
    assert!(matches!(on_fetch::<i32>(Err(remote_error())), FetchStep::Failed(ServiceError::Api { .. })));
    assert_eq!(on_persist(8, Ok(())).unwrap(), 8);
    let io = ServiceError::Io { message: "disk full".to_string() };
    assert!(matches!(on_persist(8, Err(io)), Err(ServiceError::Io { .. })));
}

#[test]
fn service_uses_cached_credentials_or_anonymous() {
    let cfg = ApiConfig { base_path: "https://api".to_string(), bearer_access_token: "SECRET-REDACTED".to_string() };
    let s = ApiService::new("conf".to_string(), "https://fallback".to_string(), paths(), Some(cfg));
    assert_eq!(s.request_config.base_path, "https://api");
    assert_eq!(s.request_config.bearer_access_token.as_deref(), Some("SECRET-REDACTED"));
    assert!(s.device.is_none() && s.license.is_none());
    let a = ApiService::new("conf".to_string(), "https://fallback".to_string(), paths(), None);
    assert_eq!(a.request_config.base_path, "https://fallback");
    assert!(a.request_config.bearer_access_token.is_none());
}

#[test]
fn failed_loads_leave_slots_empty() {
    let mut s = ApiService::new("conf".to_string(), "u".to_string(), paths(), None);
    s.load_models(Err(remote_error()), Ok(license(1, "abc")));
    assert!(s.device.is_none());
    assert_eq!(s.license.as_ref().unwrap().fingerprint, "abc");
    match s.device_id() {
        Err(ServiceError::SignupIncomplete { cache }) => assert_eq!(cache, "/data/device.json"),
        other => panic!("unexpected {:?}", other),
    }
    assert!(matches!(s.task_request(TaskType::SystemCheck), Err(ServiceError::SignupIncomplete { .. })));
    s.load_models(Ok(DeviceRecord { id: 7, hostname: "pi".to_string() }), Err(remote_error()));
    assert_eq!(s.device_id().unwrap(), 7);
    let req = s.task_request(TaskType::SystemCheck).unwrap();
    assert!(req.active);
    assert_eq!(req.device, 7);
    match s.license_check_plan(&license(1, "abc"), None) {
        Err(ServiceError::SignupIncomplete { cache }) => assert_eq!(cache, "/data/license.json"),
        other => panic!("unexpected {:?}", other),
    }
}

#[test]
fn license_check_plan_uses_cached_license() {
    let mut s = ApiService::new("conf".to_string(), "u".to_string(), paths(), None);
    s.load_models(Ok(DeviceRecord { id: 7, hostname: "pi".to_string() }), Ok(license(1, "abc")));
    let p = s.license_check_plan(&license(1, "abc"), None).unwrap();
    assert_eq!(p.finish.status, TaskStatus::Success);
    let q = s.license_check_plan(&license(1, "xyz"), Some(TaskSummary { id: 2, last_status: Some(TaskStatus::Pending) })).unwrap();
    assert_eq!(q.finish.status, TaskStatus::Failed);
    assert_eq!(q.start, StartAction::Acknowledge { task_id: 2 });
    let r = s.task_status_request(2, 7, TaskStatus::Started, None, Some("w".to_string()));
    assert_eq!((r.task, r.device, r.status), (2, 7, TaskStatus::Started));
    assert_eq!(r.wiki_url.as_deref(), Some("w"));
}

#[test]
fn debug_endpoints() {
    let client = GstClient::new("http://127.0.0.1:5000/".to_string());
    let d = printnanny::gst::Debug::new(&client);
    assert_eq!(d.client.base_url, "http://127.0.0.1:5000/");
    assert_eq!(d.enable_path(true), "debug/enable?name=true");
    assert_eq!(d.enable_path(false), "debug/enable?name=false");
    assert_eq!(d.reset_path(true), "debug/reset?name=true");
    assert_eq!(d.threshold_path("*:3"), "debug/threshold?name=*:3");
    assert_eq!(d.color_path(false), "debug/color?name=false");
}

#[test]
fn octoprint_authorization_and_job_name() {
    assert_eq!(authorization_value(Some("k1")).as_deref(), Some("Bearer k1"));
    assert_eq!(authorization_value(None), None);
    let job = CurrentJob { file: Some(JobFile { name: Some("cube.gcode".to_string()) }) };
    assert_eq!(current_job_filename(job).as_deref(), Some("cube.gcode"));
    assert_eq!(current_job_filename(CurrentJob { file: Some(JobFile { name: None }) }), None);
    assert_eq!(current_job_filename(CurrentJob { file: None }), None);
}

#[test]
fn octoprint_authorization_header() {
    let h = authorization_header(Some("k1")).unwrap().unwrap();
    assert_eq!(h, "Bearer k1");
    assert!(authorization_header(None).unwrap().is_none());
    assert!(matches!(authorization_header(Some("bad\nkey")), Err(OctoPrintError::InvalidApiKey)));
    assert!(authorization_header(Some("tab\tkey")).is_ok());
}
