use std::cell::RefCell;

use rusty_php::callback::{
    dispatch_activate, dispatch_deactivate, dispatch_get_fd, dispatch_get_request_time,
    dispatch_get_target_gid, dispatch_get_target_uid, dispatch_input_filter,
    dispatch_input_filter_init, dispatch_read_post, dispatch_shutdown, dispatch_startup,
    dispatch_ub_write, write_on_success, SapiCallback,
};
use rusty_php::result::PhpResult;
use rusty_php::sapi::SAPI_HEADER_SENT_SUCCESSFULLY;
use rusty_php::zend::ZendResultCode;

/// A listener that overrides nothing, living on every stated default.
struct Quiet;

impl SapiCallback for Quiet {
    fn on_terminate_process(&self) {}
}

/// A listener that records what the output hook receives.
struct Recorder {
    written: RefCell<Vec<u8>>,
}

impl SapiCallback for Recorder {
    fn on_ub_write(&self, str: &[u8]) -> usize {
        self.written.borrow_mut().extend_from_slice(str);
        str.len()
    }

    fn on_terminate_process(&self) {}
}

#[test]
fn default_lifecycle_hooks_succeed() {
    let l = Quiet;
    assert!(matches!(l.on_startup(), PhpResult::Success(())));
    assert!(matches!(l.on_shutdown(), PhpResult::Success(())));
    assert!(matches!(l.on_activate(), PhpResult::Success(())));
    assert!(matches!(l.on_deactivate(), PhpResult::Success(())));
    assert_eq!(dispatch_startup(&l), 0);
    assert_eq!(dispatch_shutdown(&l), 0);
    assert_eq!(dispatch_activate(&l), 0);
    assert_eq!(dispatch_deactivate(&l), 0);
}

#[test]
fn default_lookups_find_nothing() {
    let l = Quiet;
    assert!(l.on_get_env(b"PATH").is_none());
    assert!(l.on_read_cookies().is_none());
    assert!(matches!(l.on_get_stat(), PhpResult::Failure));
}

#[test]
fn default_read_post_reads_zero_bytes() {
    let l = Quiet;
    let mut buffer = vec![7u8; 16];
    assert_eq!(l.on_read_post(&mut buffer), 0);
    assert_eq!(buffer, vec![7u8; 16]);
    assert_eq!(dispatch_read_post(&l, &mut buffer), 0);
    assert_eq!(buffer.len(), 16);
}

#[test]
fn default_headers_report_sent() {
    let l = Quiet;
    let headers = rusty_php::sapi::SapiHeadersStruct {
        headers: rusty_php::zend::llist::ZendLlist { elements: vec![], persistent: 0 },
        http_response_code: 200,
        send_default_content_type: 1,
        mimetype: None,
        http_status_line: None,
    };
    assert_eq!(l.on_send_headers(&headers), SAPI_HEADER_SENT_SUCCESSFULLY);
    assert_eq!(SAPI_HEADER_SENT_SUCCESSFULLY, 1);
}

#[test]
fn default_request_time_is_zero() {
    let l = Quiet;
    match l.on_get_request_time() {
        PhpResult::Success(bits) => assert_eq!(f64::from_bits(bits), 0.0),
        PhpResult::Failure => panic!("the default request time reports success"),
    }
    let mut slot: u64 = 99;
    assert!(matches!(
        dispatch_get_request_time(&l, &mut slot),
        ZendResultCode::Success
    ));
    assert_eq!(slot, 0);
}

#[test]
fn default_ids_are_zero() {
    let l = Quiet;
    let mut fd: i32 = -1;
    assert_eq!(dispatch_get_fd(&l, &mut fd), 0);
    assert_eq!(fd, 0);
    let mut uid: u32 = 77;
    assert_eq!(dispatch_get_target_uid(&l, &mut uid), 0);
    assert_eq!(uid, 0);
    let mut gid: u32 = 77;
    assert_eq!(dispatch_get_target_gid(&l, &mut gid), 0);
    assert_eq!(gid, 0);
}

#[test]
fn default_input_filter_accepts_all_values() {
    let l = Quiet;
    let mut values = vec![b"one".to_vec(), b"two".to_vec()];
    match l.on_input_filter(0, b"name", &mut values) {
        PhpResult::Success(n) => assert_eq!(n, 2),
        PhpResult::Failure => panic!("the default input filter reports success"),
    }
    assert_eq!(values, vec![b"one".to_vec(), b"two".to_vec()]);

    let mut kept: usize = 0;
    let code = dispatch_input_filter(&l, 0, b"name", &mut values, &mut kept);
    assert_eq!(code, 0);
    assert_eq!(kept, 2);
    assert_eq!(dispatch_input_filter_init(&l), 0);
}

#[test]
fn ub_write_override_observes_bytes_and_count() {
    let l = Recorder { written: RefCell::new(Vec::new()) };
    let n = dispatch_ub_write(&l, b"Hello, world!");
    assert_eq!(n, 13);
    assert_eq!(l.written.borrow().as_slice(), b"Hello, world!");
}

#[test]
fn default_ub_write_consumes_at_most_the_offered_bytes() {
    let l = Quiet;
    let n = l.on_ub_write(b"Hello, world!\n");
    assert!(n <= 14);
}

#[test]
fn write_on_success_writes_only_on_success() {
    let mut slot: i32 = 5;
    assert_eq!(write_on_success(PhpResult::Success(42), &mut slot), 0);
    assert_eq!(slot, 42);
    assert_eq!(write_on_success(PhpResult::<i32>::Failure, &mut slot), 1);
    assert_eq!(slot, 42);
}

#[test]
fn result_encodings_round_the_codes() {
    assert_eq!(PhpResult::Success(()).to_raw_int(), 0);
    assert_eq!(PhpResult::<()>::Failure.to_raw_int(), 1);
    assert_eq!(PhpResult::Success(()).to_raw_uint(), 0);
    assert_eq!(PhpResult::<()>::Failure.to_raw_uint(), 1);
    assert!(matches!(
        PhpResult::Success(7).to_result_code(),
        ZendResultCode::Success
    ));
    assert!(matches!(
        PhpResult::<i32>::Failure.to_result_code(),
        ZendResultCode::Failure
    ));
    assert!(matches!(
        PhpResult::from_result_code(ZendResultCode::Success),
        PhpResult::Success(())
    ));
    assert!(matches!(
        PhpResult::from_result_code(ZendResultCode::Failure),
        PhpResult::Failure
    ));
    assert!(matches!(PhpResult::from_raw_int(0), PhpResult::Success(())));
    assert!(matches!(PhpResult::from_raw_int(1), PhpResult::Failure));
    assert!(matches!(PhpResult::from_raw_int(-1), PhpResult::Failure));
}

#[test]
fn unwrap_returns_the_value() {
    assert_eq!(PhpResult::Success(31).unwrap(), 31);
}

#[test]
fn zend_result_codes() {
    assert_eq!(ZendResultCode::Success.code(), 0);
    assert_eq!(ZendResultCode::Failure.code(), -1);
    assert_eq!(ZendResultCode::from_code(0), ZendResultCode::Success);
    assert_eq!(ZendResultCode::from_code(-1), ZendResultCode::Failure);
    assert_eq!(ZendResultCode::from_code(5), ZendResultCode::Failure);
}
