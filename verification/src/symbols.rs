//! The symbol-table loader's manifest and linking step.
//!
//! The runtime image is resolved symbol by symbol against a fixed,
//! versioned manifest of entry-point names — initialization and shutdown
//! calls for the runtime, module and request, the stream helpers, the
//! evaluation and execution entry points, and the exported globals the
//! embedding reads.  The front end performs the name lookups in the loaded
//! image and hands the raw addresses here; linking either populates the
//! whole table or fails naming the first unresolved symbol.  Loading pins
//! the image for the process lifetime, so addresses never go stale.

use vstd::prelude::*;

verus! {

pub const SYM_PHP_REQUEST_STARTUP: usize = 0;

pub const SYM_PHP_REQUEST_SHUTDOWN: usize = 1;

pub const SYM_PHP_MODULE_STARTUP: usize = 2;

pub const SYM_PHP_MODULE_SHUTDOWN: usize = 3;

pub const SYM_PHP_EXECUTE_SCRIPT: usize = 4;

pub const SYM_SAPI_STARTUP: usize = 5;

pub const SYM_SAPI_SHUTDOWN: usize = 6;

pub const SYM_ZEND_SIGNAL_STARTUP: usize = 7;

pub const SYM_ZEND_EVAL_STRING_EX: usize = 8;

pub const SYM_ZEND_STREAM_INIT_FP: usize = 9;

pub const SYM_ZEND_STREAM_INIT_FILENAME: usize = 10;

pub const SYM_ZEND_LLIST_GET_FIRST_EX: usize = 11;

pub const SYM_ZEND_LLIST_GET_NEXT_EX: usize = 12;

pub const SYM_PHP_STREAM_OPEN_WRAPPER_EX: usize = 13;

pub const SYM_PHP_PRINT_INFO: usize = 14;

pub const SYM_SAPI_GLOBALS: usize = 15;

pub const SYM_ZEND_KNOWN_STRINGS: usize = 16;

/// How many symbols the manifest lists.
pub const SYMBOL_COUNT: usize = 17;

/// The manifest: entry-point and exported-global names, in table order.
pub open spec fn symbol_manifest() -> Seq<Seq<char>> {
    seq![
        "php_request_startup"@,
        "php_request_shutdown"@,
        "php_module_startup"@,
        "php_module_shutdown"@,
        "php_execute_script"@,
        "sapi_startup"@,
        "sapi_shutdown"@,
        "zend_signal_startup"@,
        "zend_eval_string_ex"@,
        "zend_stream_init_fp"@,
        "zend_stream_init_filename"@,
        "zend_llist_get_first_ex"@,
        "zend_llist_get_next_ex"@,
        "_php_stream_open_wrapper_ex"@,
        "php_print_info"@,
        "sapi_globals"@,
        "zend_known_strings"@,
    ]
}

/// The names to resolve, in table order: one per manifest entry.  Adding a
/// required entry point is one line here and its index constant above.
pub fn required_symbols() -> (names: Vec<&'static str>)
    ensures
        names@.len() == SYMBOL_COUNT,
        forall|i: int|
            0 <= i < names@.len() ==> #[trigger] names@[i]@ == symbol_manifest()[i],
{
    let mut names: Vec<&'static str> = Vec::new();
    names.push("php_request_startup");
    names.push("php_request_shutdown");
    names.push("php_module_startup");
    names.push("php_module_shutdown");
    names.push("php_execute_script");
    names.push("sapi_startup");
    names.push("sapi_shutdown");
    names.push("zend_signal_startup");
    names.push("zend_eval_string_ex");
    names.push("zend_stream_init_fp");
    names.push("zend_stream_init_filename");
    names.push("zend_llist_get_first_ex");
    names.push("zend_llist_get_next_ex");
    names.push("_php_stream_open_wrapper_ex");
    names.push("php_print_info");
    names.push("sapi_globals");
    names.push("zend_known_strings");
    names
}

/// A load failure: the first manifest entry that the image did not
/// resolve, by its table index.
#[derive(Copy, Clone, Debug, PartialEq, Eq, Structural)]
pub enum LoadError {
    UnresolvedSymbol(usize),
}

/// The fully populated table: one resolved address per manifest entry, in
/// manifest order.  Built once at load time and immutable afterwards.
#[derive(Debug, PartialEq)]
pub struct SymbolTable {
    pub addrs: Vec<usize>,
}

impl SymbolTable {
    /// Every manifest entry has its address.
    pub open spec fn wf(self) -> bool {
        self.addrs@.len() == SYMBOL_COUNT
    }

    /// The address resolved for the given manifest index.
    pub fn addr(&self, index: usize) -> (a: usize)
        requires
            index < self.addrs@.len(),
        ensures
            a == self.addrs@[index as int],
    {
        self.addrs[index]
    }
}

/// The linking step: one lookup result per manifest entry, in manifest
/// order, where `None` records a name the image did not resolve.  The
/// table is built exactly when every name resolved; otherwise the error
/// names the first unresolved entry, and nothing of the table survives.
pub fn link_table(addrs: &Vec<Option<usize>>) -> (r: Result<SymbolTable, LoadError>)
    requires
        addrs@.len() == SYMBOL_COUNT,
    ensures
        (r is Ok <==> (forall|i: int| 0 <= i < addrs@.len() ==> (#[trigger] addrs@[i]) is Some)),
        r matches Ok(t) ==> t.wf() && (forall|i: int|
            0 <= i < addrs@.len() ==> (#[trigger] addrs@[i]) is Some && t.addrs@[i]
                == addrs@[i]->0),
        r matches Err(LoadError::UnresolvedSymbol(i)) ==> i < addrs@.len() && addrs@[
            i as int
        ] is None && (forall|j: int| 0 <= j < i as int ==> (#[trigger] addrs@[j]) is Some),
{
    let n = addrs.len();
    let mut table: Vec<usize> = Vec::new();
    let mut i: usize = 0;
    while i < n
        invariant
            n == addrs@.len(),
            i <= n,
            table@.len() == i,
            forall|j: int|
                0 <= j < i as int ==> (#[trigger] addrs@[j]) is Some && table@[j] == addrs@[j]->0,
        decreases n - i,
    {
        match &addrs[i] {
            Some(a) => {
                table.push(*a);
            },
            None => {
                return Err(LoadError::UnresolvedSymbol(i));
            },
        }
        i = i + 1;
    }
    Ok(SymbolTable { addrs: table })
}

} // verus!
