use rusty_php::callback::{Callback, SapiCallback};
use rusty_php::result::PhpResult;
use rusty_php::sapi::{Sapi, SapiExt};
use rusty_php::zend::ZendResultCode;
use rusty_php::{Php, PhpInit, PhpModule, PhpRequest};

struct SapiCallbackImpl;

impl SapiCallback for SapiCallbackImpl {
    fn on_terminate_process(&self) {}
}

struct SapiImpl;

impl Sapi for SapiImpl {
    type Listener = SapiCallbackImpl;

    fn name(&self) -> &[u8] {
        b"rusty-php"
    }

    fn pretty_name(&self) -> &[u8] {
        b"rusty-php"
    }

    fn executable_location(&self) -> &[u8] {
        b"/opt/homebrew/bin"
    }

    fn callback(&self) -> Callback<SapiCallbackImpl> {
        Callback::new(SapiCallbackImpl)
    }
}

fn loaded() -> Php {
    match PhpInit::new(SapiImpl).init() {
        PhpResult::Success(php) => php,
        PhpResult::Failure => panic!("runtime startup reports no failure"),
    }
}

#[test]
fn descriptor_carries_the_host_strings() {
    let php = loaded();
    assert_eq!(php.sapi_module.name, b"rusty-php".to_vec());
    assert_eq!(php.sapi_module.pretty_name, b"rusty-php".to_vec());
    assert_eq!(php.sapi_module.executable_location, b"/opt/homebrew/bin".to_vec());
    assert_eq!(php.sapi_module.php_ini_ignore, 0);
    assert!(php.sapi_module.php_ini_path_override.is_none());
    assert!(php.sapi_module.ini_entries.is_none());
}

#[test]
fn into_raw_builds_the_descriptor() {
    let raw = SapiImpl.into_raw();
    assert_eq!(raw.name, b"rusty-php".to_vec());
    assert_eq!(raw.executable_location, b"/opt/homebrew/bin".to_vec());
}

#[test]
fn full_lifecycle_in_reverse_order() {
    let php = loaded();
    let module = php
        .startup_module(ZendResultCode::Success)
        .unwrap_or_else(|_| panic!("a success code must transition to the module phase"));
    let request = module
        .startup_request(ZendResultCode::Success)
        .unwrap_or_else(|_| panic!("a success code must transition to the request phase"));

    // Teardown in exact reverse order of creation.
    let module: PhpModule = request.shutdown();
    let php: Php = module.shutdown();
    php.shutdown();
}

#[test]
fn shutdown_all_unwinds_every_phase() {
    let php = loaded();
    let module = php.startup_module(ZendResultCode::Success).ok().unwrap();
    let request = module.startup_request(ZendResultCode::Success).ok().unwrap();
    request.shutdown_all();

    let php = loaded();
    let module = php.startup_module(ZendResultCode::Success).ok().unwrap();
    module.shutdown_all();
}

#[test]
fn module_startup_failure_keeps_the_handle() {
    let php = loaded();
    match php.startup_module(ZendResultCode::Failure) {
        Ok(_) => panic!("a failure code must not transition"),
        Err(php) => {
            // The handle survives for inspection or retry.
            assert_eq!(php.sapi_module.name, b"rusty-php".to_vec());
            let module = php.startup_module(ZendResultCode::Success).ok().unwrap();
            module.shutdown_all();
        }
    }
}

#[test]
fn request_startup_failure_keeps_the_module() {
    let php = loaded();
    let module = php.startup_module(ZendResultCode::Success).ok().unwrap();
    match module.startup_request(ZendResultCode::Failure) {
        Ok(_) => panic!("a failure code must not transition"),
        Err(module) => {
            let request: PhpRequest = module.startup_request(ZendResultCode::Success).ok().unwrap();
            request.shutdown_all();
        }
    }
}

#[test]
fn sequential_requests_on_one_module() {
    let php = loaded();
    let module = php.startup_module(ZendResultCode::Success).ok().unwrap();
    let request = module.startup_request(ZendResultCode::Success).ok().unwrap();
    let module = request.shutdown();
    let request = module.startup_request(ZendResultCode::Success).ok().unwrap();
    request.shutdown_all();
}

#[test]
fn callback_registration_holds_the_listener() {
    let callback = Callback::new(SapiCallbackImpl);
    let listener = callback.listener();
    assert!(matches!(listener.on_startup(), PhpResult::Success(())));
}
