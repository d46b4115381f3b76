use rusty_dam::dispatch;
use rusty_dam::es::{delete_outcome, get_outcome, index_outcome, search_documents, IndexError};
use rusty_dam::sys_service::{event_reg_key_delete_path, event_reg_key_path, LogType, RunPlan, ServiceHandler, ServiceInstaller};
use rusty_dam::worker::{self, Builder, Service, ServiceError, ServicePool};

struct Named(&'static str);

impl Service for Named {
    fn name(&self) -> &str {
        self.0
    }

    fn start(&self, _args: &[String]) {}
}

#[test]
fn builder_keeps_services_in_order() {
    let a = Named("A");
    let b = Named("B");
    let mut builder = Builder::new();
    builder.service(&a).service(&b);
    let names: Vec<&str> = builder.service_list().iter().map(|s| s.name()).collect();
    assert_eq!(names, vec!["A", "B"]);
}

#[test]
fn pool_deq_takes_first_and_keeps_others() {
    let mut pool: ServicePool<u32> = ServicePool::new();
    pool.enq("A".to_string(), 1);
    pool.enq("B".to_string(), 2);
    pool.enq("A".to_string(), 3);
    assert_eq!(pool.deq("A"), 1);
    assert!(pool.has("B"));
    assert_eq!(pool.deq("A"), 3);
    assert!(!pool.has("A"));
    assert_eq!(pool.deq("B"), 2);
    assert!(!pool.has("B"));
}

#[test]
fn two_services_both_start_from_the_pool() {
    let a = Named("A");
    let b = Named("B");
    let mut builder = Builder::new();
    builder.service(&a).service(&b);
    let mut pool: ServicePool<&dyn Service> = ServicePool::new();
    builder.register(&mut pool);
    assert!(pool.has("A") && pool.has("B"));
    assert_eq!(pool.deq("A").name(), "A");
    assert_eq!(pool.deq("B").name(), "B");
}

#[test]
fn status_of_shared_and_own_services() {
    let s = worker::service_status(worker::SERVICE_RUNNING);
    assert_eq!(s.service_type, 0x20);
    assert_eq!(s.current_state, 4);
    assert_eq!(s.controls_accepted, 5);
    assert_eq!(s.win32_exit_code, 0);
    let o = dispatch::service_status(worker::SERVICE_STOPPED);
    assert_eq!(o.service_type, 0x10);
    assert_eq!(o.current_state, 1);
    assert_eq!(o.controls_accepted, 5);
}

#[test]
fn handler_stops_on_stop_and_shutdown() {
    assert_eq!(worker::service_handler(1).0.unwrap().current_state, 1);
    assert_eq!(worker::service_handler(5).0.unwrap().current_state, 1);
    assert!(worker::service_handler(2).0.is_none());
    assert_eq!(worker::service_handler(2).1, worker::NO_ERROR);
    assert!(worker::control_stops(1));
    assert!(!worker::control_stops(4));
}

#[test]
fn service_error_descriptions() {
    assert_eq!(ServiceError::CantAcquireMutexLock.description(), "Can not lock service pool mutex.");
    assert_eq!(ServiceError::RegisterServiceHandlerError.description(), "Can't register service handler.");
    let io = ServiceError::IOError(std::io::Error::new(std::io::ErrorKind::Other, "x"));
    assert_eq!(io.description(), "IO error occured. See more details in inner error.");
}

#[test]
fn status_handler_reports_only_with_handle() {
    let mut h = ServiceHandler::new();
    assert_eq!(h.get_current_state(), worker::SERVICE_START_PENDING);
    assert!(h.status(worker::SERVICE_RUNNING).is_none());
    assert_eq!(h.get_current_state(), worker::SERVICE_START_PENDING);
    h.handler(77);
    let (handle, status) = h.status(worker::SERVICE_RUNNING).unwrap();
    assert_eq!(handle, 77);
    assert_eq!(status.current_state, worker::SERVICE_RUNNING);
    assert_eq!(status.service_type, 0x10);
    assert_eq!(h.get_current_state(), worker::SERVICE_RUNNING);
}

struct Quiet;
impl rusty_dam::sys_service::Service for Quiet {}

#[test]
fn installer_plan() {
    assert!(matches!(ServiceInstaller::run(Quiet, true), RunPlan::Install));
    assert!(matches!(ServiceInstaller::run(Quiet, false), RunPlan::Launch(_)));
}

#[test]
fn log_types() {
    assert_eq!(LogType::AUDIT_FAILURE.code(), 0x10);
    assert_eq!(LogType::WARNING_TYPE.bitor(LogType::SUCCESS), LogType::WARNING_TYPE);
    assert_eq!(LogType::ERROR_TYPE.bitor(LogType::ERROR_TYPE), LogType::ERROR_TYPE);
    let all = [
        LogType::AUDIT_FAILURE,
        LogType::AUDIT_SUCCESS,
        LogType::ERROR_TYPE,
        LogType::INFORMATION_TYPE,
        LogType::SUCCESS,
        LogType::WARNING_TYPE,
    ];
    assert_eq!(LogType::mask(&all), 0x1f);
    assert_eq!(LogType::mask(&[]), 0);
}

#[test]
fn registry_key_paths() {
    assert_eq!(event_reg_key_path("svc"), "System\\CurrentControlSet\\Services\\EventLog\\Application\\svc");
    assert_eq!(event_reg_key_delete_path("svc"), "SYSTEM\\CurrentControlSet\\Services\\EventLog\\Application\\svc");
}

#[test]
fn index_replies() {
    assert!(index_outcome(Ok(true)).is_ok());
    assert!(matches!(index_outcome(Ok(false)), Err(IndexError::CreationFailed)));
    assert!(delete_outcome(Ok(true)).is_ok());
    assert!(matches!(delete_outcome(Ok(false)), Err(IndexError::NotFound)));
    let err = rs_es::error::EsError::EsError("boom".to_string());
    assert!(matches!(index_outcome(Err(err)), Err(IndexError::Inner(_))));
    assert!(matches!(get_outcome::<u8>(Ok(Some(4))), Ok(4)));
    assert!(matches!(get_outcome::<u8>(Ok(None)), Err(IndexError::NotFound)));
    assert_eq!(search_documents(vec![Some(1), None, Some(3)]), vec![1, 3]);
}

#[test]
fn password_digest_of_known_text() {
    let expected: [u8; 32] = [
        0x64, 0x4b, 0xcc, 0x7e, 0x56, 0x43, 0x73, 0x04, 0x09, 0x99, 0xaa, 0xc8, 0x9e, 0x76, 0x22, 0xf3,
        0xca, 0x71, 0xfb, 0xa1, 0xd9, 0x72, 0xfd, 0x94, 0xa3, 0x1c, 0x3b, 0xfb, 0xf2, 0x4e, 0x39, 0x38,
    ];
    assert_eq!(rusty_dam::crypto::get_sha3("hello world"), String::from_utf8_lossy(&expected).into_owned());
}

#[test]
fn fresh_ids_are_version_4() {
    let a = rusty_dam::file::File::new("a".to_string()).id();
    let b = rusty_dam::file::File::new("b".to_string()).id();
    assert_eq!((a >> 76) & 0xf, 4);
    assert_eq!((a >> 62) & 0x3, 2);
    assert_ne!(a, b);
}

#[test]
fn wide_strings() {
    assert_eq!(rusty_dam::wide::to_wchar("Ab"), vec![0x41, 0x62, 0]);
    assert_eq!(rusty_dam::wide::to_wchar(""), vec![0]);
    let expected: Vec<u16> = "é😀".encode_utf16().chain(Some(0)).collect();
    assert_eq!(rusty_dam::wide::to_wchar("é😀"), expected);
}
