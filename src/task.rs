use vstd::prelude::*;

verus! {

/// Detail text of a failed license check.
pub const LICENSE_CHECK_FAILED_MSG: &'static str = "License check failed: the local license does not match the active license";

/// Help text of a failed license check.
pub const LICENSE_CHECK_FAILED_HELP: &'static str = "Download a new license from your dashboard and reflash the device";

/// Detail text of a successful license check.
pub const LICENSE_CHECK_SUCCESS_MSG: &'static str = "License check succeeded: the local license matches the active license";

/// Help text of a successful license check.
pub const LICENSE_CHECK_SUCCESS_HELP: &'static str = "No action is needed";

/// Status of a verification task.
#[derive(Debug, Clone, Copy, PartialEq, Eq, Structural)]
pub enum TaskStatus {
    Pending,
    Started,
    Failed,
    Success,
    Timeout,
}

/// Kinds of verification task.
#[derive(Debug, Clone, Copy, PartialEq, Eq, Structural)]
pub enum TaskType {
    SystemCheck,
}

pub open spec fn terminal(s: TaskStatus) -> bool {
    s == TaskStatus::Failed || s == TaskStatus::Success || s == TaskStatus::Timeout
}

impl TaskStatus {
    /// Whether no transition leaves this status.
    pub fn is_terminal(&self) -> (r: bool)
        ensures
            r == terminal(*self),
    {
        match self {
            TaskStatus::Pending => false,
            TaskStatus::Started => false,
            _ => true,
        }
    }
}

/// The task that the remote service reports as the last check of a license.
#[derive(Debug, Clone, Copy, PartialEq, Eq, Structural)]
pub struct TaskSummary {
    pub id: i32,
    pub last_status: Option<TaskStatus>,
}

/// A license record, as far as the check reads it.
#[derive(Debug)]
pub struct LicenseRecord {
    pub id: i32,
    pub device: i32,
    pub fingerprint: String,
}

impl LicenseRecord {
    /// An exact copy of this record.
    pub fn duplicate(&self) -> (r: LicenseRecord)
        ensures
            r == *self,
    {
        LicenseRecord { id: self.id, device: self.device, fingerprint: self.fingerprint.clone() }
    }
}

/// What to do so that a task is in the `Started` status before the check runs.
#[derive(Debug, Clone, Copy, PartialEq, Eq, Structural)]
pub enum StartAction {
    /// Create a new task and give it the `Started` status.
    CreateStarted,
    /// Send a `Started` update to the pending task.
    Acknowledge { task_id: i32 },
    /// The task is already started: send nothing.
    Keep { task_id: i32 },
}

/// The start action that the last task calls for.
pub open spec fn start_action_of(last: Option<TaskSummary>) -> StartAction {
    match last {
        None => StartAction::CreateStarted,
        Some(t) => match t.last_status {
            Some(TaskStatus::Started) => StartAction::Keep { task_id: t.id },
            Some(TaskStatus::Pending) => StartAction::Acknowledge { task_id: t.id },
            _ => StartAction::CreateStarted,
        },
    }
}

/// Chooses how to start a check from the last task: a task that is started is
/// kept, a pending one is acknowledged, and otherwise (none, no status, or a
/// terminal status) a fresh task is created.
pub fn plan_start(last: Option<TaskSummary>) -> (r: StartAction)
    ensures
        r == start_action_of(last),
{
    match last {
        None => StartAction::CreateStarted,
        Some(t) => match t.last_status {
            Some(TaskStatus::Started) => StartAction::Keep { task_id: t.id },
            Some(TaskStatus::Pending) => StartAction::Acknowledge { task_id: t.id },
            _ => StartAction::CreateStarted,
        },
    }
}

/// The status updates that a start action issues.
pub open spec fn start_updates(a: StartAction) -> Seq<TaskStatus> {
    match a {
        StartAction::Keep { .. } => Seq::empty(),
        _ => seq![TaskStatus::Started],
    }
}

/// A status update for a task, with optional detail and help texts.
#[derive(Debug)]
pub struct StatusUpdate {
    pub status: TaskStatus,
    pub detail: Option<String>,
    pub wiki_url: Option<String>,
}

/// The cached license agrees with the active one in identifier and fingerprint.
pub open spec fn licenses_match(cached: LicenseRecord, active: LicenseRecord) -> bool {
    cached.id == active.id && cached.fingerprint@ == active.fingerprint@
}

/// `o` holds a text equal to `t`.
pub open spec fn text_is(o: Option<String>, t: Seq<char>) -> bool {
    match o {
        Some(s) => s@ == t,
        None => false,
    }
}

/// The terminal status of a license check.
pub open spec fn verdict_status(cached: LicenseRecord, active: LicenseRecord) -> TaskStatus {
    if licenses_match(cached, active) {
        TaskStatus::Success
    } else {
        TaskStatus::Failed
    }
}

/// The terminal update of a license check: `Success` when the cached license has
/// the identifier and fingerprint of the active one, `Failed` otherwise, each with
/// its detail and help texts.
pub fn license_verdict(cached: &LicenseRecord, active: &LicenseRecord) -> (r: StatusUpdate)
    ensures
        r.status == verdict_status(*cached, *active),
        licenses_match(*cached, *active) ==> text_is(r.detail, LICENSE_CHECK_SUCCESS_MSG@)
            && text_is(r.wiki_url, LICENSE_CHECK_SUCCESS_HELP@),
        !licenses_match(*cached, *active) ==> text_is(r.detail, LICENSE_CHECK_FAILED_MSG@)
            && text_is(r.wiki_url, LICENSE_CHECK_FAILED_HELP@),
{
    if cached.id == active.id && cached.fingerprint == active.fingerprint {
        StatusUpdate {
            status: TaskStatus::Success,
            detail: Some(LICENSE_CHECK_SUCCESS_MSG.to_owned()),
            wiki_url: Some(LICENSE_CHECK_SUCCESS_HELP.to_owned()),
        }
    } else {
        StatusUpdate {
            status: TaskStatus::Failed,
            detail: Some(LICENSE_CHECK_FAILED_MSG.to_owned()),
            wiki_url: Some(LICENSE_CHECK_FAILED_HELP.to_owned()),
        }
    }
}

/// The full plan of a license check: how to start the task, then the one
/// terminal update to send to it.
#[derive(Debug)]
pub struct LicenseCheckPlan {
    pub start: StartAction,
    pub finish: StatusUpdate,
}

/// Every status update that a plan issues, in order.
pub open spec fn plan_updates(p: LicenseCheckPlan) -> Seq<TaskStatus> {
    start_updates(p.start).push(p.finish.status)
}

/// Plans a license check from the cached license, the active license on the
/// remote service, and the last check task that the service reports.
pub fn plan_license_check(
    cached: &LicenseRecord,
    active: &LicenseRecord,
    last: Option<TaskSummary>,
) -> (r: LicenseCheckPlan)
    ensures
        r.start == start_action_of(last),
        r.finish.status == verdict_status(*cached, *active),
        licenses_match(*cached, *active) ==> text_is(r.finish.detail, LICENSE_CHECK_SUCCESS_MSG@)
            && text_is(r.finish.wiki_url, LICENSE_CHECK_SUCCESS_HELP@),
        !licenses_match(*cached, *active) ==> text_is(r.finish.detail, LICENSE_CHECK_FAILED_MSG@)
            && text_is(r.finish.wiki_url, LICENSE_CHECK_FAILED_HELP@),
{
    let start = plan_start(last);
    let finish = license_verdict(cached, active);
    LicenseCheckPlan { start, finish }
}

/// The task that receives the terminal update: the one created or acknowledged
/// by the start action (`created` is the identifier of a task that the action
/// created).
pub fn terminal_task_id(start: StartAction, created: i32) -> (r: i32)
    ensures
        r == match start {
            StartAction::CreateStarted => created,
            StartAction::Acknowledge { task_id } => task_id,
            StartAction::Keep { task_id } => task_id,
        },
{
    match start {
        StartAction::CreateStarted => created,
        StartAction::Acknowledge { task_id } => task_id,
        StartAction::Keep { task_id } => task_id,
    }
}

/// With no active task, a license check issues exactly one `Started` update and
/// then exactly one terminal update, which is `Failed` or `Success`.
pub proof fn law_check_from_scratch(cached: LicenseRecord, active: LicenseRecord, p: LicenseCheckPlan)
    requires
        p.start == start_action_of(None),
        p.finish.status == verdict_status(cached, active),
    ensures
        plan_updates(p).len() == 2,
        plan_updates(p)[0] == TaskStatus::Started,
        terminal(plan_updates(p)[1]),
        plan_updates(p)[1] == TaskStatus::Failed || plan_updates(p)[1] == TaskStatus::Success,
        plan_updates(p).filter(|s: TaskStatus| terminal(s)).len() == 1,
{
    let u = plan_updates(p);
    assert(u =~= seq![TaskStatus::Started, p.finish.status]);
    reveal_with_fuel(Seq::filter, 3);
    assert(u.drop_last() =~= seq![TaskStatus::Started]);
    assert(seq![TaskStatus::Started].drop_last() =~= Seq::<TaskStatus>::empty());
}

} // verus!
