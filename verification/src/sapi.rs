//! The SAPI descriptor: what the embedding host tells the runtime about
//! itself, and the header records the runtime hands back.
//!
//! The descriptor record also carries the addresses of the bridge's
//! trampolines in the runtime's own layout; those addresses live with the
//! unverified front end, while everything the host decides about — the
//! name strings and the flag words — is modeled here.

use vstd::prelude::*;

use vstd::slice::slice_to_vec;

use crate::callback::{Callback, SapiCallback};
use crate::zend::llist::ZendLlist;

verus! {

/// Header-sending report: the headers went out successfully.
pub const SAPI_HEADER_SENT_SUCCESSFULLY: i32 = 1;

/// Header-sending report: the runtime should send them itself.
pub const SAPI_HEADER_DO_SEND: i32 = 2;

/// Header-sending report: sending failed.
pub const SAPI_HEADER_SEND_FAILED: i32 = 3;

/// One response header line, as a length-counted byte string.
#[derive(Debug, PartialEq)]
pub struct SapiHeaderStruct {
    pub header: Vec<u8>,
}

/// The response-header state of one request: the collected header lines in
/// insertion order, and the response's status bookkeeping.
#[derive(Debug)]
pub struct SapiHeadersStruct {
    pub headers: ZendLlist<SapiHeaderStruct>,
    pub http_response_code: i32,
    pub send_default_content_type: u8,
    pub mimetype: Option<Vec<u8>>,
    pub http_status_line: Option<Vec<u8>>,
}

/// The operation a header-handler call is asked to apply.
#[derive(Copy, Clone, Debug, PartialEq, Eq, Structural)]
pub enum SapiHeaderOpEnum {
    SapiHeaderReplace,
    SapiHeaderAdd,
    SapiHeaderDelete,
    SapiHeaderDeleteAll,
    SapiHeaderSetStatus,
}

/// The host-decided fields of the runtime's SAPI descriptor record: the
/// short name, the display name, the executable-location string the runtime
/// uses for self-reporting, and the flag words of the record.
#[derive(Debug, PartialEq)]
pub struct SapiModuleStruct {
    pub name: Vec<u8>,
    pub pretty_name: Vec<u8>,
    pub executable_location: Vec<u8>,
    pub php_ini_path_override: Option<Vec<u8>>,
    pub php_ini_ignore: i32,
    pub php_ini_ignore_cwd: i32,
    pub phpinfo_as_text: i32,
    pub ini_entries: Option<Vec<u8>>,
}

impl SapiModuleStruct {
    /// The descriptor for a host with the given strings, with the flag
    /// words the embedding uses: no ini override, ini not ignored, info
    /// rendered as markup.
    pub fn from_parts(name: &[u8], pretty_name: &[u8], executable_location: &[u8]) -> (m:
        SapiModuleStruct)
        ensures
            m.name@ == name@,
            m.pretty_name@ == pretty_name@,
            m.executable_location@ == executable_location@,
            m.php_ini_path_override is None,
            m.php_ini_ignore == 0,
            m.php_ini_ignore_cwd == 0,
            m.phpinfo_as_text == 0,
            m.ini_entries is None,
    {
        SapiModuleStruct {
            name: slice_to_vec(name),
            pretty_name: slice_to_vec(pretty_name),
            executable_location: slice_to_vec(executable_location),
            php_ini_path_override: None,
            php_ini_ignore: 0,
            php_ini_ignore_cwd: 0,
            phpinfo_as_text: 0,
            ini_entries: None,
        }
    }
}

/// An embedding host: it names itself and brings the listener whose hooks
/// the bridge will call.  All three strings are caller-supplied bytes with
/// no defaults assumed.
///
/// The three spec views say, at the specification level, what the host's
/// strings are; each accessor promises to return its view's bytes.  The
/// views are left abstract by default, so a host states them only when its
/// callers reason about the descriptor's contents.
pub trait Sapi: Sized {
    /// The listener type this host installs.
    type Listener: SapiCallback;

    /// The host's short name, at the specification level.
    open spec fn name_spec(&self) -> Seq<u8> {
        arbitrary()
    }

    /// The host's display name, at the specification level.
    open spec fn pretty_name_spec(&self) -> Seq<u8> {
        arbitrary()
    }

    /// The host's executable-location string, at the specification level.
    open spec fn executable_location_spec(&self) -> Seq<u8> {
        arbitrary()
    }

    /// The host's short name.
    fn name(&self) -> (n: &[u8])
        ensures
            n@ == self.name_spec(),
    ;

    /// The host's display name.
    fn pretty_name(&self) -> (n: &[u8])
        ensures
            n@ == self.pretty_name_spec(),
    ;

    /// The host's executable-location string, used by the runtime for
    /// self-reporting only.
    fn executable_location(&self) -> (n: &[u8])
        ensures
            n@ == self.executable_location_spec(),
    ;

    /// The listener to install for the bridge.
    fn callback(&self) -> Callback<Self::Listener>;
}

/// What every host can derive from its `Sapi` definition.
pub trait SapiExt: Sapi {
    /// The descriptor record for this host: its three strings carried over
    /// byte for byte, with the flag words `SapiModuleStruct::from_parts`
    /// fixes.
    fn into_raw(self) -> (m: SapiModuleStruct)
        ensures
            m.name@ == self.name_spec(),
            m.pretty_name@ == self.pretty_name_spec(),
            m.executable_location@ == self.executable_location_spec(),
            m.php_ini_path_override is None,
            m.php_ini_ignore == 0,
            m.php_ini_ignore_cwd == 0,
            m.phpinfo_as_text == 0,
            m.ini_entries is None,
    {
        SapiModuleStruct::from_parts(self.name(), self.pretty_name(), self.executable_location())
    }
}

impl<T: Sapi> SapiExt for T {

}

} // verus!
