use vstd::prelude::*;

use crate::task::{
    plan_license_check, start_action_of, verdict_status, LicenseCheckPlan, LicenseRecord,
    TaskStatus, TaskSummary, TaskType,
};

verus! {

/// Remote operations of the service.
#[derive(Debug, Clone, Copy, PartialEq, Eq, Structural)]
pub enum Endpoint {
    AuthEmailCreate,
    AuthTokenCreate,
    DevicesRetrieve,
    DevicesRetrieveHostname,
    LicenseActivate,
    DevicesActiveLicenseRetrieve,
    TaskCreate,
    TaskStatusCreate,
}

/// How a remote call failed.
#[derive(Debug, Clone, Copy, PartialEq, Eq, Structural)]
pub enum FailureKind {
    Transport,
    NotFound,
    Validation,
    Auth,
}

/// Errors of the device-state service.
#[derive(Debug)]
pub enum ServiceError {
    /// A remote call failed.
    Api { endpoint: Endpoint, kind: FailureKind, message: String },
    /// The cached license is not the active one.
    InvalidLicense { expected: String, active: String },
    /// The host name could not be read.
    SysInfo { message: String },
    /// A cache file could not be read or written.
    Io { message: String },
    /// A record could not be encoded or decoded.
    Serde { message: String },
    /// A record that is needed is not cached, and no remote identity is known.
    SignupIncomplete { cache: String },
}

/// A device record, as far as the service reads it.
#[derive(Debug)]
pub struct DeviceRecord {
    pub id: i32,
    pub hostname: String,
}

/// Where the service keeps its cache files.
#[derive(Debug)]
pub struct ServicePaths {
    pub api_config_json: String,
    pub device_json: String,
    pub license_json: String,
}

/// Credentials of the remote service, as cached on disk.
#[derive(Debug)]
pub struct ApiConfig {
    pub base_path: String,
    pub bearer_access_token: String,
}

/// How requests to the remote service are made.
#[derive(Debug)]
pub struct RequestConfig {
    pub base_path: String,
    pub bearer_access_token: Option<String>,
}

/// A request to create a task for a device.
#[derive(Debug)]
pub struct TaskRequest {
    pub active: bool,
    pub task_type: TaskType,
    pub device: i32,
}

/// A request to append a status update to a task.
#[derive(Debug)]
pub struct TaskStatusRequest {
    pub device: i32,
    pub task: i32,
    pub status: TaskStatus,
    pub detail: Option<String>,
    pub wiki_url: Option<String>,
}

/// The device-state service: request configuration, cache paths, and the two
/// cached records, each of which may be absent.
#[derive(Debug)]
pub struct ApiService {
    pub request_config: RequestConfig,
    pub paths: ServicePaths,
    pub config: String,
    pub license: Option<LicenseRecord>,
    pub device: Option<DeviceRecord>,
}

impl ApiService {
    /// A service with no records loaded yet. With cached credentials requests go
    /// to their base path with their token; without, they go to `base_url`
    /// anonymously.
    pub fn new(config: String, base_url: String, paths: ServicePaths, api_config: Option<ApiConfig>) -> (r: ApiService)
        ensures
            r.config == config,
            r.paths == paths,
            r.device is None,
            r.license is None,
            match api_config {
                Some(c) => r.request_config.base_path == c.base_path
                    && r.request_config.bearer_access_token == Some(c.bearer_access_token),
                None => r.request_config.base_path == base_url
                    && r.request_config.bearer_access_token is None,
            },
    {
        let request_config = match api_config {
            Some(c) => RequestConfig {
                base_path: c.base_path,
                bearer_access_token: Some(c.bearer_access_token),
            },
            None => RequestConfig { base_path: base_url, bearer_access_token: None },
        };
        ApiService { request_config, paths, config, license: None, device: None }
    }

    /// Fills the record slots from the outcomes of loading each record; a load
    /// that failed leaves its slot empty instead of failing the service.
    pub fn load_models(
        &mut self,
        device: Result<DeviceRecord, ServiceError>,
        license: Result<LicenseRecord, ServiceError>,
    )
        ensures
            final(self).request_config == old(self).request_config,
            final(self).paths == old(self).paths,
            final(self).config == old(self).config,
            final(self).device == match device {
                Ok(d) => Some(d),
                Err(_) => None::<DeviceRecord>,
            },
            final(self).license == match license {
                Ok(l) => Some(l),
                Err(_) => None::<LicenseRecord>,
            },
    {
        self.device = match device {
            Ok(d) => Some(d),
            Err(_) => None,
        };
        self.license = match license {
            Ok(l) => Some(l),
            Err(_) => None,
        };
    }

    /// The identifier of the cached device, which the device, license and task
    /// operations need.
    pub fn device_id(&self) -> (r: Result<i32, ServiceError>)
        ensures
            match self.device {
                Some(d) => r == Ok::<i32, ServiceError>(d.id),
                None => r matches Err(ServiceError::SignupIncomplete { cache })
                    && cache@ == self.paths.device_json@,
            },
    {
        match &self.device {
            Some(d) => Ok(d.id),
            None => Err(ServiceError::SignupIncomplete { cache: self.paths.device_json.clone() }),
        }
    }

    /// The request that creates an active task of `task_type` for the cached device.
    pub fn task_request(&self, task_type: TaskType) -> (r: Result<TaskRequest, ServiceError>)
        ensures
            match self.device {
                Some(d) => r matches Ok(t) && t.active && t.task_type == task_type && t.device == d.id,
                None => r matches Err(ServiceError::SignupIncomplete { cache })
                    && cache@ == self.paths.device_json@,
            },
    {
        let device = self.device_id()?;
        Ok(TaskRequest { active: true, task_type, device })
    }

    /// The request that appends `status` to task `task_id` of device `device_id`.
    pub fn task_status_request(
        &self,
        task_id: i32,
        device_id: i32,
        status: TaskStatus,
        detail: Option<String>,
        wiki_url: Option<String>,
    ) -> (r: TaskStatusRequest)
        ensures
            r == (TaskStatusRequest { device: device_id, task: task_id, status, detail, wiki_url }),
    {
        TaskStatusRequest { device: device_id, task: task_id, status, detail, wiki_url }
    }

    /// Plans the check of the cached license against the active license on the
    /// remote service; fails when no license is cached.
    pub fn license_check_plan(&self, active: &LicenseRecord, last: Option<TaskSummary>) -> (r: Result<LicenseCheckPlan, ServiceError>)
        ensures
            match self.license {
                Some(cached) => r matches Ok(p) && p.start == start_action_of(last)
                    && p.finish.status == verdict_status(cached, *active)
                    && p.finish.detail is Some && p.finish.wiki_url is Some,
                None => r matches Err(ServiceError::SignupIncomplete { cache })
                    && cache@ == self.paths.license_json@,
            },
    {
        match &self.license {
            Some(cached) => Ok(plan_license_check(cached, active, last)),
            None => Err(ServiceError::SignupIncomplete { cache: self.paths.license_json.clone() }),
        }
    }
}

} // verus!
