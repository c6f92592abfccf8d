//! The file handle a request executes, as the host sees it.
//!
//! The runtime's handle carries stream plumbing the host never reads; what
//! the host decides about it is the script's name and whether it runs as
//! the primary script of the request.

use vstd::prelude::*;

verus! {

/// A script handle prepared for execution.
#[derive(Debug, PartialEq)]
pub struct ZFileHandle {
    pub filename: Vec<u8>,
    pub primary_script: bool,
}

impl ZFileHandle {
    /// A handle for the named script, not yet marked primary.
    pub fn for_path(filename: Vec<u8>) -> (h: ZFileHandle)
        ensures
            h.filename@ == filename@,
            !h.primary_script,
    {
        ZFileHandle { filename, primary_script: false }
    }

    /// Marks or unmarks the script as the request's primary script.
    pub fn set_primary_script(&mut self, is_primary: bool)
        ensures
            final(self).primary_script == is_primary,
            final(self).filename@ == old(self).filename@,
    {
        self.primary_script = is_primary;
    }
}

} // verus!
