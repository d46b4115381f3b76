//! A single service that runs as its own process: its status handler, the
//! choice between installing and launching it, and its event-log settings.
use vstd::prelude::*;
use vstd::string::StringExecFns;
use crate::worker::{
    ServiceStatus, SERVICE_ACCEPT_SHUTDOWN, SERVICE_ACCEPT_STOP, SERVICE_START_PENDING,
    SERVICE_WIN32_OWN_PROCESS,
};

verus! {

/// A service that runs as its own process.
pub trait Service {
    fn start(&mut self, _args: &[String]) {
    }

    fn stop(&mut self) {
    }
}

/// The status of a service of its own process that is in `state`, has no
/// exit code and accepts stop and shutdown.
pub open spec fn own_status(state: u32) -> ServiceStatus {
    ServiceStatus {
        service_type: SERVICE_WIN32_OWN_PROCESS,
        current_state: state,
        controls_accepted: 5,
        win32_exit_code: 0,
        service_specific_exit_code: 0,
        check_point: 0,
        wait_hint: 0,
    }
}

/// The status of the running service and the handle it is reported under.
pub struct ServiceHandler {
    status: ServiceStatus,
    handler: Option<usize>,
}

impl ServiceHandler {
    pub closed spec fn spec_status(&self) -> ServiceStatus {
        self.status
    }

    pub closed spec fn spec_handler(&self) -> Option<usize> {
        self.handler
    }

    /// A service that is starting and has no handle yet.
    pub fn new() -> (r: ServiceHandler)
        ensures
            r.spec_status() == own_status(SERVICE_START_PENDING),
            r.spec_handler() is None,
    {
        assert(SERVICE_ACCEPT_STOP | SERVICE_ACCEPT_SHUTDOWN == 5) by (bit_vector);
        ServiceHandler {
            status: ServiceStatus {
                service_type: SERVICE_WIN32_OWN_PROCESS,
                current_state: SERVICE_START_PENDING,
                controls_accepted: SERVICE_ACCEPT_STOP | SERVICE_ACCEPT_SHUTDOWN,
                win32_exit_code: 0,
                service_specific_exit_code: 0,
                check_point: 0,
                wait_hint: 0,
            },
            handler: None,
        }
    }

    pub fn get_current_state(&self) -> (r: u32)
        ensures
            r == self.spec_status().current_state,
    {
        self.status.current_state
    }

    /// Takes the handle that the status is reported under.
    pub fn handler(&mut self, handle: usize)
        ensures
            final(self).spec_handler() == Some(handle),
            final(self).spec_status() == old(self).spec_status(),
    {
        self.handler = Some(handle);
    }

    /// Moves to `state`. Without a handle nothing happens and nothing is
    /// reported; with one the state is set, the exit code cleared, and the
    /// status is given back to be reported under the handle.
    pub fn status(&mut self, state: u32) -> (r: Option<(usize, ServiceStatus)>)
        ensures
            final(self).spec_handler() == old(self).spec_handler(),
            old(self).spec_handler() is None ==> r is None && final(self).spec_status() == old(
                self,
            ).spec_status(),
            old(self).spec_handler() matches Some(h) ==> final(self).spec_status() == (
            ServiceStatus {
                win32_exit_code: 0,
                current_state: state,
                ..old(self).spec_status()
            }) && r == Some((h, final(self).spec_status())),
    {
        match self.handler {
            Some(h) => {
                self.status.win32_exit_code = 0;
                self.status.current_state = state;
                Some((h, self.status))
            },
            None => None,
        }
    }
}

/// What running a service does: install it, or hand it to the dispatcher.
pub enum RunPlan<T> {
    Install,
    Launch(T),
}

/// Installs or runs the service of this executable.
pub struct ServiceInstaller;

/// Keeps the service set up while it is alive.
pub struct Guard;

impl ServiceInstaller {
    /// Built for installing, the service is installed; otherwise it is
    /// launched.
    pub fn run<T: Service>(service: T, install: bool) -> (r: RunPlan<T>)
        ensures
            install ==> r is Install,
            !install ==> r == RunPlan::Launch(service),
    {
        if install {
            RunPlan::Install
        } else {
            RunPlan::Launch(service)
        }
    }
}

/// The kinds of event that the service writes to the event log.
#[derive(Debug, Clone, Copy, PartialEq, Eq, Structural)]
#[allow(non_camel_case_types)]
pub enum LogType {
    SUCCESS,
    ERROR_TYPE,
    WARNING_TYPE,
    INFORMATION_TYPE,
    AUDIT_SUCCESS,
    AUDIT_FAILURE,
}

/// The event-log code of each kind of event.
pub open spec fn log_type_code(t: LogType) -> u8 {
    match t {
        LogType::SUCCESS => 0x00,
        LogType::ERROR_TYPE => 0x01,
        LogType::WARNING_TYPE => 0x02,
        LogType::INFORMATION_TYPE => 0x04,
        LogType::AUDIT_SUCCESS => 0x08,
        LogType::AUDIT_FAILURE => 0x10,
    }
}

/// The kind of event with this code, if there is one.
pub open spec fn log_type_of_code(v: u8) -> Option<LogType> {
    if v == 0x00 {
        Some(LogType::SUCCESS)
    } else if v == 0x01 {
        Some(LogType::ERROR_TYPE)
    } else if v == 0x02 {
        Some(LogType::WARNING_TYPE)
    } else if v == 0x04 {
        Some(LogType::INFORMATION_TYPE)
    } else if v == 0x08 {
        Some(LogType::AUDIT_SUCCESS)
    } else if v == 0x10 {
        Some(LogType::AUDIT_FAILURE)
    } else {
        None
    }
}

/// The bitwise union of the codes of some kinds of event.
pub open spec fn log_mask(ts: Seq<LogType>) -> u32
    decreases ts.len(),
{
    if ts.len() == 0 {
        0
    } else {
        log_mask(ts.drop_last()) | (log_type_code(ts.last()) as u32)
    }
}

impl LogType {
    /// The event-log code of the kind of event.
    pub fn code(self) -> (r: u8)
        ensures
            r == log_type_code(self),
    {
        match self {
            LogType::SUCCESS => 0x00,
            LogType::ERROR_TYPE => 0x01,
            LogType::WARNING_TYPE => 0x02,
            LogType::INFORMATION_TYPE => 0x04,
            LogType::AUDIT_SUCCESS => 0x08,
            LogType::AUDIT_FAILURE => 0x10,
        }
    }

    /// The kind of event whose code is the union of the two codes; the
    /// union must be the code of a kind.
    pub fn bitor(self, rhs: LogType) -> (r: LogType)
        requires
            log_type_of_code(log_type_code(self) | log_type_code(rhs)) is Some,
        ensures
            log_type_code(r) == log_type_code(self) | log_type_code(rhs),
    {
        let v = self.code() | rhs.code();
        if v == 0x00 {
            LogType::SUCCESS
        } else if v == 0x01 {
            LogType::ERROR_TYPE
        } else if v == 0x02 {
            LogType::WARNING_TYPE
        } else if v == 0x04 {
            LogType::INFORMATION_TYPE
        } else if v == 0x08 {
            LogType::AUDIT_SUCCESS
        } else {
            LogType::AUDIT_FAILURE
        }
    }

    /// The union of the codes of the given kinds, as the event log takes it.
    pub fn mask(types: &[LogType]) -> (r: u32)
        ensures
            r == log_mask(types@),
    {
        let mut acc: u32 = 0;
        let mut i: usize = 0;
        while i < types.len()
            invariant
                i <= types@.len(),
                acc == log_mask(types@.take(i as int)),
            decreases types@.len() - i,
        {
            assert(types@.take(i + 1).drop_last() =~= types@.take(i as int));
            let c = types[i].code();
            acc = acc | (c as u32);
            i = i + 1;
        }
        assert(types@.take(types@.len() as int) =~= types@);
        acc
    }
}

/// The registry key under which the event source of `app_name` is set up.
pub fn event_reg_key_path(app_name: &str) -> (r: String)
    ensures
        r@ == "System\\CurrentControlSet\\Services\\EventLog\\Application\\"@ + app_name@,
{
    let mut path = String::new();
    path.append("System\\CurrentControlSet\\Services\\EventLog\\Application\\");
    path.append(app_name);
    path
}

/// The registry key that is deleted to remove the event source of `app_name`.
pub fn event_reg_key_delete_path(app_name: &str) -> (r: String)
    ensures
        r@ == "SYSTEM\\CurrentControlSet\\Services\\EventLog\\Application\\"@ + app_name@,
{
    let mut path = "SYSTEM\\CurrentControlSet\\Services\\EventLog\\Application\\".to_string();
    path.append(app_name);
    path
}

} // verus!

verus! {

/// Joining any kind of event with `SUCCESS` gives that kind back.
pub proof fn lemma_bitor_success(t: LogType)
    ensures
        log_type_of_code(log_type_code(t) | log_type_code(LogType::SUCCESS)) == Some(t),
{
    let c = log_type_code(t);
    assert(c | 0u8 == c) by (bit_vector);
}

} // verus!
