//! The status and errors of a service that a dispatcher runs in its own
//! process.
use vstd::prelude::*;
use crate::sys_service::own_status;
use crate::worker::{ServiceStatus, SERVICE_ACCEPT_SHUTDOWN, SERVICE_ACCEPT_STOP, SERVICE_WIN32_OWN_PROCESS};

verus! {

/// Why the dispatcher could not run the service.
#[derive(Debug, Clone, Copy, PartialEq, Eq, Structural)]
pub enum ServiceError {
    CouldNotStartService,
}

/// The status the service reports when it is in `state`.
pub fn service_status(state: u32) -> (r: ServiceStatus)
    ensures
        r == own_status(state),
{
    assert(SERVICE_ACCEPT_STOP | SERVICE_ACCEPT_SHUTDOWN == 5) by (bit_vector);
    ServiceStatus {
        service_type: SERVICE_WIN32_OWN_PROCESS,
        current_state: state,
        controls_accepted: SERVICE_ACCEPT_STOP | SERVICE_ACCEPT_SHUTDOWN,
        win32_exit_code: 0,
        service_specific_exit_code: 0,
        check_point: 0,
        wait_hint: 0,
    }
}

} // verus!
