//! The callback bridge: the capability set a host listener implements, the
//! stated default behavior of every hook, and the per-hook dispatch cores
//! that translate a listener's answer into the raw encoding the runtime
//! expects.
//!
//! The runtime calls into its host through a table of bare function
//! pointers with no per-call context slot, so the front end resolves the
//! one globally registered listener and forwards each call here.  The
//! bridge itself is stateless: each dispatch function converts the raw-ish
//! arguments, invokes the listener's hook, and encodes the answer — a
//! zero/nonzero success code, or a value that is written out only on
//! success.  A hook's failure is scoped to that one call and reported
//! through the hook's own return contract; the bridge never aborts.

use vstd::prelude::*;

use std::io::Write;

use crate::result::PhpResult;
use crate::sapi::{SapiHeaderOpEnum, SapiHeaderStruct, SapiHeadersStruct};
use crate::zend::array::ZendArray;
use crate::zend::{ZendResultCode, ZendStat, Zval};

verus! {

/// The capability set of an embedding host: one method per hook of the
/// runtime's SAPI record, each independently overridable.  The defaults
/// answer as a host with no opinion should — lifecycle notifications
/// succeed, lookups find nothing, output goes to the process's standard
/// output stream — and each default's exact behavior is stated on the
/// method.  Only process termination has no default here: ending the
/// process is the front end's business, so a listener states its own.
pub trait SapiCallback: Sized {
    /// Runtime-wide startup notification.  By default: nothing, success.
    fn on_startup(&self) -> (r: PhpResult<()>)
        default_ensures
            r.is_success(),
    {
        PhpResult::Success(())
    }

    /// Runtime-wide shutdown notification.  By default: nothing, success.
    fn on_shutdown(&self) -> (r: PhpResult<()>)
        default_ensures
            r.is_success(),
    {
        PhpResult::Success(())
    }

    /// Per-request activation notification.  By default: nothing, success.
    fn on_activate(&self) -> (r: PhpResult<()>)
        default_ensures
            r.is_success(),
    {
        PhpResult::Success(())
    }

    /// Per-request deactivation notification.  By default: nothing,
    /// success.
    fn on_deactivate(&self) -> (r: PhpResult<()>)
        default_ensures
            r.is_success(),
    {
        PhpResult::Success(())
    }

    /// The primary output sink: consumes unbuffered output bytes and
    /// reports how many were taken, never more than were offered.  By
    /// default the bytes go to the process's standard output stream.
    fn on_ub_write(&self, str: &[u8]) -> (n: usize)
        ensures
            n <= str@.len(),
    {
        write_stdout(str)
    }

    /// Flushes buffered output.  By default: flushes the standard output
    /// stream.
    fn on_flush(&self) {
        flush_stdout()
    }

    /// File-status lookup for the runtime.  By default no status is
    /// available and the call fails, which the bridge reports as "none".
    fn on_get_stat(&self) -> (r: PhpResult<ZendStat>)
        default_ensures
            !r.is_success(),
    {
        PhpResult::Failure
    }

    /// Environment-variable lookup.  By default every name is unset.
    fn on_get_env(&self, name: &[u8]) -> (r: Option<Vec<u8>>)
        default_ensures
            r is None,
    {
        None
    }

    /// A runtime-reported error of the given severity.  By default the
    /// message is logged at error severity.
    fn on_sapi_error(&self, ty: i32, error_msg: &[u8]) {
        log_stderr("ERROR", ty, error_msg)
    }

    /// One header operation to apply to the response-header state.  By
    /// default: nothing, success, headers untouched.
    fn on_header_handler(
        &self,
        header: &SapiHeaderStruct,
        op: SapiHeaderOpEnum,
        headers: &mut SapiHeadersStruct,
    ) -> (r: PhpResult<()>)
        default_ensures
            r.is_success(),
            *final(headers) == *old(headers),
    {
        PhpResult::Success(())
    }

    /// Finalizes the response headers and reports how they were handled.
    /// By default they are reported as sent successfully.
    fn on_send_headers(&self, headers: &SapiHeadersStruct) -> (r: i32)
        default_ensures
            r == crate::sapi::SAPI_HEADER_SENT_SUCCESSFULLY,
    {
        crate::sapi::SAPI_HEADER_SENT_SUCCESSFULLY
    }

    /// Sends one header line.  By default: nothing.
    fn on_send_header(&self, header: &SapiHeaderStruct) {
    }

    /// Reads request-body bytes into the front of the buffer and reports
    /// how many were read; the buffer keeps its length.  By default no
    /// body is available and zero bytes are read.
    fn on_read_post(&self, buffer: &mut Vec<u8>) -> (n: usize)
        ensures
            n <= old(buffer)@.len(),
            final(buffer)@.len() == old(buffer)@.len(),
        default_ensures
            n == 0,
            *final(buffer) == *old(buffer),
    {
        0
    }

    /// Reads the request's cookie bytes.  By default there are none.
    fn on_read_cookies(&self) -> (r: Option<Vec<u8>>)
        default_ensures
            r is None,
    {
        None
    }

    /// Populates the request-scope variable array.  By default: nothing.
    fn on_register_server_variables(&self, track_vars_array: &mut Zval)
        default_ensures
            *final(track_vars_array) == *old(track_vars_array),
    {
    }

    /// A diagnostic message from the runtime.  By default it is logged at
    /// debug severity.
    fn on_log_message(&self, message: &[u8], syslog_type_int: i32) {
        log_stderr("LOG", syslog_type_int, message)
    }

    /// The request's wall-clock start time, as the bit pattern of the
    /// runtime's eight-byte float.  By default: zero.
    fn on_get_request_time(&self) -> (r: PhpResult<u64>)
        default_ensures
            r matches PhpResult::Success(t) && t == 0,
    {
        PhpResult::Success(0)
    }

    /// The runtime asks the process to terminate abnormally.  Ending the
    /// process cannot be expressed in this crate, so every listener states
    /// its own answer; the front end's listener terminates with a nonzero
    /// status.
    fn on_terminate_process(&self);

    /// The default reader for request bodies.  By default: nothing.
    fn on_default_post_reader(&self) {
    }

    /// Treats raw request data into the destination array.  By default:
    /// nothing.
    fn on_treat_data(&self, arg: i32, str: &[u8], dest_array: &mut Zval)
        default_ensures
            *final(dest_array) == *old(dest_array),
    {
    }

    /// The request stream's file descriptor.  By default: descriptor zero.
    fn on_get_fd(&self) -> (r: PhpResult<i32>)
        default_ensures
            r matches PhpResult::Success(fd) && fd == 0,
    {
        PhpResult::Success(0)
    }

    /// Forces the response down to the older protocol revision.  By
    /// default: nothing, success.
    fn on_force_http_10(&self) -> (r: PhpResult<()>)
        default_ensures
            r.is_success(),
    {
        PhpResult::Success(())
    }

    /// The user id the runtime should switch to.  By default: zero.
    fn on_get_target_uid(&self) -> (r: PhpResult<u32>)
        default_ensures
            r matches PhpResult::Success(uid) && uid == 0,
    {
        PhpResult::Success(0)
    }

    /// The group id the runtime should switch to.  By default: zero.
    fn on_get_target_gid(&self) -> (r: PhpResult<u32>)
        default_ensures
            r matches PhpResult::Success(gid) && gid == 0,
    {
        PhpResult::Success(0)
    }

    /// Filters one request variable's values and reports how many were
    /// kept.  By default every value is accepted unchanged.
    fn on_input_filter(&self, arg: i32, var: &[u8], val: &mut Vec<Vec<u8>>) -> (r: PhpResult<
        usize,
    >)
        default_ensures
            *final(val) == *old(val),
            r matches PhpResult::Success(n) && n == old(val)@.len(),
    {
        let n = val.len();
        PhpResult::Success(n)
    }

    /// Seeds the runtime's configuration defaults.  By default: nothing.
    fn on_ini_defaults(&self, configuration_hash: &mut ZendArray)
        default_ensures
            *final(configuration_hash) == *old(configuration_hash),
    {
    }

    /// Prepares the input filter for a request.  By default: nothing,
    /// success.
    fn on_input_filter_init(&self) -> (r: PhpResult<()>)
        default_ensures
            r.is_success(),
    {
        PhpResult::Success(())
    }
}

/// The listener registration the trampolines resolve: one listener shared
/// by every hook.  The runtime's pointer table carries no per-call context,
/// so the front end keeps exactly one of these in process-wide state,
/// installed before runtime startup and not replaced while any phase is
/// live.
pub struct Callback<S: SapiCallback> {
    pub listener: S,
}

impl<S: SapiCallback> Callback<S> {
    /// Wraps the listener to be registered.
    pub fn new(listener: S) -> (c: Callback<S>)
        ensures
            c.listener == listener,
    {
        Callback { listener }
    }

    /// The registered listener, as every trampoline resolves it.
    pub fn listener(&self) -> (l: &S)
        ensures
            l == self.listener,
    {
        &self.listener
    }
}

/// Encodes the startup notification's answer for the runtime: zero for
/// success, one for failure, the encoded answer being one the listener's
/// hook can return.
pub fn dispatch_startup<S: SapiCallback>(listener: &S) -> (code: i32)
    ensures
        code == 0 || code == 1,
        exists|r: PhpResult<()>|
            #[trigger] call_ensures(S::on_startup, (listener,), r) && (code == 0
                <==> r.is_success()),
{
    listener.on_startup().to_raw_int()
}

/// Encodes the shutdown notification's answer for the runtime.
pub fn dispatch_shutdown<S: SapiCallback>(listener: &S) -> (code: i32)
    ensures
        code == 0 || code == 1,
        exists|r: PhpResult<()>|
            #[trigger] call_ensures(S::on_shutdown, (listener,), r) && (code == 0
                <==> r.is_success()),
{
    listener.on_shutdown().to_raw_int()
}

/// Encodes the activation notification's answer for the runtime.
pub fn dispatch_activate<S: SapiCallback>(listener: &S) -> (code: i32)
    ensures
        code == 0 || code == 1,
        exists|r: PhpResult<()>|
            #[trigger] call_ensures(S::on_activate, (listener,), r) && (code == 0
                <==> r.is_success()),
{
    listener.on_activate().to_raw_int()
}

/// Encodes the deactivation notification's answer for the runtime.
pub fn dispatch_deactivate<S: SapiCallback>(listener: &S) -> (code: i32)
    ensures
        code == 0 || code == 1,
        exists|r: PhpResult<()>|
            #[trigger] call_ensures(S::on_deactivate, (listener,), r) && (code == 0
                <==> r.is_success()),
{
    listener.on_deactivate().to_raw_int()
}

/// Forwards output bytes to the listener's sink and passes its count
/// through unchanged: the reported count is exactly one the hook can
/// return for these bytes, and never exceeds what was offered.
pub fn dispatch_ub_write<S: SapiCallback>(listener: &S, str: &[u8]) -> (n: usize)
    ensures
        n <= str@.len(),
        call_ensures(S::on_ub_write, (listener, str), n),
{
    listener.on_ub_write(str)
}

/// Applies one header operation through the listener and encodes the
/// answer.
pub fn dispatch_header_handler<S: SapiCallback>(
    listener: &S,
    header: &SapiHeaderStruct,
    op: SapiHeaderOpEnum,
    headers: &mut SapiHeadersStruct,
) -> (code: i32)
    ensures
        code == 0 || code == 1,
{
    listener.on_header_handler(header, op, headers).to_raw_int()
}

/// Reads request-body bytes through the listener; the buffer keeps its
/// length and the reported count stays within it.
pub fn dispatch_read_post<S: SapiCallback>(listener: &S, buffer: &mut Vec<u8>) -> (n: usize)
    ensures
        n <= old(buffer)@.len(),
        final(buffer)@.len() == old(buffer)@.len(),
{
    listener.on_read_post(buffer)
}

/// Asks the listener for the request's start time and writes it into the
/// runtime's slot only on success, reporting the runtime's result code.
pub fn dispatch_get_request_time<S: SapiCallback>(listener: &S, request_time: &mut u64) -> (code:
    ZendResultCode)
    ensures
        code is Failure ==> *final(request_time) == *old(request_time),
        exists|r: PhpResult<u64>|
            #[trigger] call_ensures(S::on_get_request_time, (listener,), r) && (code is Success
                <==> r.is_success()) && (r.is_success() ==> *final(request_time) == r.value()),
{
    let r = listener.on_get_request_time();
    let code = write_on_success(r, request_time);
    if code == 0 {
        ZendResultCode::Success
    } else {
        ZendResultCode::Failure
    }
}

/// Asks the listener for the request's file descriptor; the slot is
/// written only on success.
pub fn dispatch_get_fd<S: SapiCallback>(listener: &S, fd: &mut i32) -> (code: i32)
    ensures
        code == 0 || code == 1,
        code == 1 ==> *final(fd) == *old(fd),
        exists|r: PhpResult<i32>|
            #[trigger] call_ensures(S::on_get_fd, (listener,), r) && (code == 0
                <==> r.is_success()) && (r.is_success() ==> *final(fd) == r.value()),
{
    let r = listener.on_get_fd();
    write_on_success(r, fd)
}

/// Asks the listener for the target user id; the slot is written only on
/// success.
pub fn dispatch_get_target_uid<S: SapiCallback>(listener: &S, uid: &mut u32) -> (code: i32)
    ensures
        code == 0 || code == 1,
        code == 1 ==> *final(uid) == *old(uid),
        exists|r: PhpResult<u32>|
            #[trigger] call_ensures(S::on_get_target_uid, (listener,), r) && (code == 0
                <==> r.is_success()) && (r.is_success() ==> *final(uid) == r.value()),
{
    let r = listener.on_get_target_uid();
    write_on_success(r, uid)
}

/// Asks the listener for the target group id; the slot is written only on
/// success.
pub fn dispatch_get_target_gid<S: SapiCallback>(listener: &S, gid: &mut u32) -> (code: i32)
    ensures
        code == 0 || code == 1,
        code == 1 ==> *final(gid) == *old(gid),
        exists|r: PhpResult<u32>|
            #[trigger] call_ensures(S::on_get_target_gid, (listener,), r) && (code == 0
                <==> r.is_success()) && (r.is_success() ==> *final(gid) == r.value()),
{
    let r = listener.on_get_target_gid();
    write_on_success(r, gid)
}

/// Encodes the answer to forcing the older protocol revision.
pub fn dispatch_force_http_10<S: SapiCallback>(listener: &S) -> (code: i32)
    ensures
        code == 0 || code == 1,
        exists|r: PhpResult<()>|
            #[trigger] call_ensures(S::on_force_http_10, (listener,), r) && (code == 0
                <==> r.is_success()),
{
    listener.on_force_http_10().to_raw_int()
}

/// Filters one request variable's values through the listener; the kept
/// count is written out only on success, and the unsigned code encodes
/// the outcome.
pub fn dispatch_input_filter<S: SapiCallback>(
    listener: &S,
    arg: i32,
    var: &[u8],
    val: &mut Vec<Vec<u8>>,
    new_val_len: &mut usize,
) -> (code: u32)
    ensures
        code == 0 || code == 1,
        code == 1 ==> *final(new_val_len) == *old(new_val_len),
{
    let r = listener.on_input_filter(arg, var, val);
    let code = write_on_success(r, new_val_len);
    if code == 0 {
        0
    } else {
        1
    }
}

/// Encodes the answer to preparing the input filter.
pub fn dispatch_input_filter_init<S: SapiCallback>(listener: &S) -> (code: u32)
    ensures
        code == 0 || code == 1,
        exists|r: PhpResult<()>|
            #[trigger] call_ensures(S::on_input_filter_init, (listener,), r) && (code == 0
                <==> r.is_success()),
{
    listener.on_input_filter_init().to_raw_uint()
}

/// The write-back convention of the out-parameter hooks: a successful
/// result's value goes into the runtime's slot and the code reports zero;
/// a failure leaves the slot alone and reports one.
pub fn write_on_success<T: Copy>(r: PhpResult<T>, slot: &mut T) -> (code: i32)
    ensures
        r.is_success() ==> *final(slot) == r.value() && code == 0,
        !r.is_success() ==> *final(slot) == *old(slot) && code == 1,
{
    match r {
        PhpResult::Success(v) => {
            *slot = v;
            0
        },
        PhpResult::Failure => 1,
    }
}

/// Relies on `std::io::Write::write` on the standard output stream: at most
/// the offered bytes are written and their count is reported; a write error
/// is reported as zero bytes written.
#[verifier::external_body]
fn write_stdout(buf: &[u8]) -> (n: usize)
    ensures
        n <= buf@.len(),
{
    std::io::Write::write(&mut std::io::stdout(), buf).unwrap_or(0)
}

/// Relies on `std::io::Write::flush` on the standard output stream; a
/// flush error is ignored, as no hook has a channel to report it.
#[verifier::external_body]
fn flush_stdout() {
    let _ = std::io::Write::flush(&mut std::io::stdout());
}

/// Relies on `writeln!` to the standard error stream to log one tagged
/// diagnostic line; a write error is ignored.
#[verifier::external_body]
fn log_stderr(level: &str, code: i32, message: &[u8]) {
    let _ = writeln!(
        &mut std::io::stderr(),
        "{}: [{}] {}",
        level,
        code,
        String::from_utf8_lossy(message),
    );
}

} // verus!
