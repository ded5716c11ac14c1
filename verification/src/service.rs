//! The local services and the request protocol between the app and them:
//! where each service listens, which service answers which request, which
//! requests a service admits, and how a reply reads back.

use vstd::prelude::*;

verus! {

/// The shared secret that every request envelope carries.
pub const REQUEST_TOKEN: &'static str = "timez-local";

/// The background services.
#[derive(Clone, Copy, Debug, PartialEq, Eq)]
pub enum ServiceKind {
    Auth,
    Task,
    Tracker,
    IdleTime,
    Quit,
}

impl ServiceKind {
    /// The Unix socket the service listens on.
    pub fn socket_path(self) -> (p: &'static str)
        ensures
            p@ == match self {
                ServiceKind::Auth => "/tmp/timez-auth-service.sock"@,
                ServiceKind::Task => "/tmp/timez-task-service.sock"@,
                ServiceKind::Tracker => "/tmp/timez-tracker-service.sock"@,
                ServiceKind::IdleTime => "/tmp/timez-idle-time-service.sock"@,
                ServiceKind::Quit => "/tmp/timez-quit-service.sock"@,
            },
    {
        match self {
            ServiceKind::Auth => "/tmp/timez-auth-service.sock",
            ServiceKind::Task => "/tmp/timez-task-service.sock",
            ServiceKind::Tracker => "/tmp/timez-tracker-service.sock",
            ServiceKind::IdleTime => "/tmp/timez-idle-time-service.sock",
            ServiceKind::Quit => "/tmp/timez-quit-service.sock",
        }
    }

    /// The local TCP port the service listens on where there are no Unix
    /// sockets.
    pub fn port(self) -> (p: u16)
        ensures
            p == match self {
                ServiceKind::Auth => 23401u16,
                ServiceKind::Task => 23402u16,
                ServiceKind::Tracker => 23403u16,
                ServiceKind::IdleTime => 23404u16,
                ServiceKind::Quit => 23405u16,
            },
    {
        match self {
            ServiceKind::Auth => 23401,
            ServiceKind::Task => 23402,
            ServiceKind::Tracker => 23403,
            ServiceKind::IdleTime => 23404,
            ServiceKind::Quit => 23405,
        }
    }

    /// The name of the service's executable.
    pub fn binary_name(self) -> (n: &'static str)
        ensures
            n@ == match self {
                ServiceKind::Auth => "timez-auth-service"@,
                ServiceKind::Task => "timez-task-service"@,
                ServiceKind::Tracker => "timez-tracker-service"@,
                ServiceKind::IdleTime => "timez-idle-time-service"@,
                ServiceKind::Quit => "timez-quit-service"@,
            },
    {
        match self {
            ServiceKind::Auth => "timez-auth-service",
            ServiceKind::Task => "timez-task-service",
            ServiceKind::Tracker => "timez-tracker-service",
            ServiceKind::IdleTime => "timez-idle-time-service",
            ServiceKind::Quit => "timez-quit-service",
        }
    }
}

/// The services in the order the app starts them.
pub fn startup_order() -> (kinds: Vec<ServiceKind>)
    ensures
        kinds@ == seq![
            ServiceKind::Task,
            ServiceKind::Auth,
            ServiceKind::Tracker,
            ServiceKind::IdleTime,
            ServiceKind::Quit,
        ],
{
    let kinds = vec![
        ServiceKind::Task,
        ServiceKind::Auth,
        ServiceKind::Tracker,
        ServiceKind::IdleTime,
        ServiceKind::Quit,
    ];
    assert(kinds@ =~= seq![
        ServiceKind::Task,
        ServiceKind::Auth,
        ServiceKind::Tracker,
        ServiceKind::IdleTime,
        ServiceKind::Quit,
    ]);
    kinds
}

/// A request to a service.
#[derive(Debug, Clone)]
pub enum Request {
    ListTasks,
    StartTimer { task_id: i64 },
    StopTimer,
    GetStatus,
    AddIdleTime { task_id: i64, duration_secs: i64 },
    DiscardIdleTime { task_id: i64 },
    RefreshTasks,
    GetActivityStats,
    GoogleLogin { google_id_token: String },
    StartGoogleAuth { client_id: String, client_secret: String },
    ValidateToken { token: String },
    Logout,
    GetIdleEvent,
    ResolveIdleEvent,
    /// Check if midnight has passed and get reset event if it occurred
    CheckMidnightReset,
    /// List all projects the user is allocated to
    ListProjects,
    /// List tasks for a specific project
    ListProjectTasks { project_id: i64 },
    /// Set the currently active project for filtering
    SetActiveProject { project_id: Option<i64> },
    /// The state of the retry queue of sync operations
    GetSyncStatus,
    /// Move the sync entries that ran out of retries back to the queue
    RetrySyncFailed,
    Shutdown,
}

/// A request as sent over a socket, with the shared secret.
#[derive(Debug, Clone)]
pub struct RequestEnvelope {
    pub token: String,
    pub request: Request,
}

/// The service that answers a request.
pub open spec fn service_for(request: Request) -> ServiceKind {
    match request {
        Request::GoogleLogin { .. }
        | Request::StartGoogleAuth { .. }
        | Request::ValidateToken { .. }
        | Request::Logout => ServiceKind::Auth,
        Request::GetActivityStats => ServiceKind::Tracker,
        Request::GetIdleEvent | Request::ResolveIdleEvent => ServiceKind::IdleTime,
        Request::Shutdown => ServiceKind::Quit,
        _ => ServiceKind::Task,
    }
}

/// The service that answers a request: sign-in requests go to the auth
/// service, activity statistics to the tracker, idle events to the
/// idle-time service, shutdown to the quit service, and everything about
/// tasks, timers, projects and syncing to the task service.
pub fn route_request(request: &Request) -> (kind: ServiceKind)
    ensures
        kind == service_for(*request),
{
    match request {
        Request::GoogleLogin { .. }
        | Request::StartGoogleAuth { .. }
        | Request::ValidateToken { .. }
        | Request::Logout => ServiceKind::Auth,
        Request::GetActivityStats => ServiceKind::Tracker,
        Request::GetIdleEvent | Request::ResolveIdleEvent => ServiceKind::IdleTime,
        Request::Shutdown => ServiceKind::Quit,
        _ => ServiceKind::Task,
    }
}

/// Wraps a request with the shared secret.
pub fn envelope(request: Request) -> (e: RequestEnvelope)
    ensures
        e.token@ == REQUEST_TOKEN@,
        e.request == request,
{
    RequestEnvelope { token: String::from_str(REQUEST_TOKEN), request }
}

/// What a service does with a request envelope it read.
#[derive(Debug, Clone)]
pub enum Admission {
    /// The envelope lacks the shared secret: answer with this error.
    Refused(String),
    /// Handle the request; after answering, stop when `shutdown` is set.
    Accepted { request: Request, shutdown: bool },
}

/// Checks the shared secret of an envelope: a request without it is refused
/// with "Unauthorized request"; an admitted `Shutdown` stops the service
/// once answered.
pub fn admission_of(envelope: RequestEnvelope) -> (a: Admission)
    ensures
        envelope.token@ != REQUEST_TOKEN@ ==> (a matches Admission::Refused(m) && m@
            == "Unauthorized request"@),
        envelope.token@ == REQUEST_TOKEN@ ==> (a matches Admission::Accepted { request, shutdown }
            && request == envelope.request && shutdown == (envelope.request is Shutdown)),
{
    let expected = String::from_str(REQUEST_TOKEN);
    if envelope.token != expected {
        return Admission::Refused(String::from_str("Unauthorized request"));
    }
    let shutdown = match &envelope.request {
        Request::Shutdown => true,
        _ => false,
    };
    Admission::Accepted { request: envelope.request, shutdown }
}

/// What a reply envelope (`ok`, `data`, `error`) says: the data of a
/// successful reply, "Missing response payload" when it has none, the
/// error of a failed one, or "Unknown service error" when it gives none.
pub fn response_result<D>(ok: bool, data: Option<D>, error: Option<String>) -> (r: Result<D, String>)
    ensures
        ok ==> match data {
            Some(d) => r == Ok::<D, String>(d),
            None => r matches Err(m) && m@ == "Missing response payload"@,
        },
        !ok ==> match error {
            Some(e) => r matches Err(m) && m@ == e@,
            None => r matches Err(m) && m@ == "Unknown service error"@,
        },
{
    if !ok {
        return match error {
            Some(e) => Err(e),
            None => Err(String::from_str("Unknown service error")),
        };
    }
    match data {
        Some(d) => Ok(d),
        None => Err(String::from_str("Missing response payload")),
    }
}

/// What a check of the starting services found.
#[derive(Debug, Clone, PartialEq, Eq)]
pub enum StartupVerdict {
    /// Every service accepts connections.
    AllReady,
    /// Some service does not accept connections yet.
    Wait,
    /// A service exited while starting: the error to report.
    Failed(String),
}

/// One service as seen while the services start.
#[derive(Debug, Clone)]
pub enum StartupProbe {
    /// The process the app started exited, with this status text.
    Exited(String),
    /// It does not accept connections yet.
    NotReady,
    /// It accepts connections.
    Ready,
}

/// The message for a service that exited while starting.
pub open spec fn exited_message(kind: ServiceKind, status: Seq<char>) -> Seq<char> {
    kind.binary_name_spec() + " exited during startup with status "@ + status
}

impl ServiceKind {
    /// The name of the service's executable, as a spec value.
    pub open spec fn binary_name_spec(self) -> Seq<char> {
        match self {
            ServiceKind::Auth => "timez-auth-service"@,
            ServiceKind::Task => "timez-task-service"@,
            ServiceKind::Tracker => "timez-tracker-service"@,
            ServiceKind::IdleTime => "timez-idle-time-service"@,
            ServiceKind::Quit => "timez-quit-service"@,
        }
    }
}

/// Judges one round of checks on the starting services, in order: the first
/// that exited fails the start; otherwise all must accept connections.
pub fn startup_verdict(probes: &Vec<(ServiceKind, StartupProbe)>) -> (v: StartupVerdict)
    ensures
        match v {
            StartupVerdict::Failed(m) => exists|i: int|
                0 <= i < probes@.len() && (#[trigger] probes@[i].1 matches StartupProbe::Exited(
                    s,
                ) && m@ == exited_message(probes@[i].0, s@)) && forall|j: int|
                    0 <= j < i ==> !(probes@[j].1 is Exited),
            StartupVerdict::AllReady => forall|i: int|
                0 <= i < probes@.len() ==> #[trigger] probes@[i].1 is Ready,
            StartupVerdict::Wait => (forall|i: int|
                0 <= i < probes@.len() ==> !(#[trigger] probes@[i].1 is Exited)) && exists|i: int|
                0 <= i < probes@.len() && #[trigger] probes@[i].1 is NotReady,
        },
{
    let mut all_ready = true;
    let n = probes.len();
    for i in 0..n
        invariant
            n == probes@.len(),
            forall|j: int| 0 <= j < i ==> !(#[trigger] probes@[j].1 is Exited),
            all_ready <==> forall|j: int| 0 <= j < i ==> #[trigger] probes@[j].1 is Ready,
    {
        let (kind, probe) = &probes[i];
        match probe {
            StartupProbe::Exited(status) => {
                let mut m = String::from_str(kind.binary_name());
                m.append(" exited during startup with status ");
                m.append(status.as_str());
                assert(probes@[i as int].1 matches StartupProbe::Exited(s) && m@ == exited_message(
                    probes@[i as int].0,
                    s@,
                ));
                return StartupVerdict::Failed(m);
            },
            StartupProbe::NotReady => {
                all_ready = false;
            },
            StartupProbe::Ready => {},
        }
    }
    if all_ready {
        StartupVerdict::AllReady
    } else {
        StartupVerdict::Wait
    }
}

/// The requests a service answers; any other it refuses.
pub open spec fn handles(kind: ServiceKind, request: Request) -> bool {
    match kind {
        ServiceKind::Auth => match request {
            Request::GoogleLogin { .. }
            | Request::StartGoogleAuth { .. }
            | Request::ValidateToken { .. }
            | Request::Logout
            | Request::Shutdown => true,
            _ => false,
        },
        ServiceKind::Task => match request {
            Request::ListTasks
            | Request::StartTimer { .. }
            | Request::StopTimer
            | Request::GetStatus
            | Request::AddIdleTime { .. }
            | Request::DiscardIdleTime { .. }
            | Request::RefreshTasks
            | Request::CheckMidnightReset
            | Request::ListProjects
            | Request::ListProjectTasks { .. }
            | Request::SetActiveProject { .. }
            | Request::GetSyncStatus
            | Request::RetrySyncFailed
            | Request::Shutdown => true,
            _ => false,
        },
        ServiceKind::Tracker => match request {
            Request::GetActivityStats | Request::Shutdown => true,
            _ => false,
        },
        ServiceKind::IdleTime => match request {
            Request::GetIdleEvent | Request::ResolveIdleEvent | Request::Shutdown => true,
            _ => false,
        },
        ServiceKind::Quit => request is Shutdown,
    }
}

/// The name of a service in its error messages.
pub open spec fn service_label(kind: ServiceKind) -> Seq<char> {
    match kind {
        ServiceKind::Auth => "auth"@,
        ServiceKind::Task => "task"@,
        ServiceKind::Tracker => "tracker"@,
        ServiceKind::IdleTime => "idle-time"@,
        ServiceKind::Quit => "quit"@,
    }
}

/// Whether the service answers the request: `Ok` when it does, else the
/// error "Unsupported request for {service} service".
pub fn check_handled(kind: ServiceKind, request: &Request) -> (r: Result<(), String>)
    ensures
        handles(kind, *request) ==> r is Ok,
        !handles(kind, *request) ==> (r matches Err(m) && m@ == "Unsupported request for "@
            + service_label(kind) + " service"@),
{
    let handled = match kind {
        ServiceKind::Auth => match request {
            Request::GoogleLogin { .. }
            | Request::StartGoogleAuth { .. }
            | Request::ValidateToken { .. }
            | Request::Logout
            | Request::Shutdown => true,
            _ => false,
        },
        ServiceKind::Task => match request {
            Request::ListTasks
            | Request::StartTimer { .. }
            | Request::StopTimer
            | Request::GetStatus
            | Request::AddIdleTime { .. }
            | Request::DiscardIdleTime { .. }
            | Request::RefreshTasks
            | Request::CheckMidnightReset
            | Request::ListProjects
            | Request::ListProjectTasks { .. }
            | Request::SetActiveProject { .. }
            | Request::GetSyncStatus
            | Request::RetrySyncFailed
            | Request::Shutdown => true,
            _ => false,
        },
        ServiceKind::Tracker => match request {
            Request::GetActivityStats | Request::Shutdown => true,
            _ => false,
        },
        ServiceKind::IdleTime => match request {
            Request::GetIdleEvent | Request::ResolveIdleEvent | Request::Shutdown => true,
            _ => false,
        },
        ServiceKind::Quit => match request {
            Request::Shutdown => true,
            _ => false,
        },
    };
    if handled {
        return Ok(());
    }
    let mut m = String::from_str("Unsupported request for ");
    match kind {
        ServiceKind::Auth => m.append("auth"),
        ServiceKind::Task => m.append("task"),
        ServiceKind::Tracker => m.append("tracker"),
        ServiceKind::IdleTime => m.append("idle-time"),
        ServiceKind::Quit => m.append("quit"),
    }
    m.append(" service");
    Err(m)
}

/// Every request is sent to a service that answers it, and every service
/// answers `Shutdown`.
pub proof fn law_routed_requests_are_handled(request: Request, kind: ServiceKind)
    ensures
        handles(service_for(request), request),
        handles(kind, Request::Shutdown),
{
}

} // verus!
