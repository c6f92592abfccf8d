//! Embedding layer for a separately compiled PHP interpreter runtime.
//!
//! The crate models the three tightly coupled pieces of such an embedding.
//! The *lifecycle* is a linear state machine — runtime startup, module
//! startup, request startup, and their teardowns in exact reverse order —
//! carried by phase types whose transitions consume their predecessor, so
//! an out-of-order teardown cannot be written.  The *callback bridge* is
//! the capability set through which the runtime talks back to its host,
//! with a stated default for every hook.  The *value view layer* decodes
//! the runtime's tagged value cells into host-visible variants without
//! copying them.
//!
//! The raw foreign calls themselves — loading the runtime image, invoking
//! its entry points, the C-shaped trampolines — live in the unverified
//! front end.  Each transition here takes the result code that the
//! corresponding entry point reported and decides what follows; every
//! decision made around the foreign calls is in this crate.

use vstd::prelude::*;

pub mod builder;
pub mod callback;
pub mod result;
pub mod sapi;
pub mod symbols;
pub mod zend;

use crate::result::PhpResult;
use crate::sapi::{Sapi, SapiExt, SapiModuleStruct};
use crate::zend::ZendResultCode;

verus! {

/// The stages of the embedding lifecycle, in the order they are reached.
/// The machine is linear with no cycles: each startup call moves one stage
/// to the right, each teardown call one stage back to the left.
#[derive(Copy, Clone, Debug, PartialEq, Eq, Structural)]
pub enum LifecycleStage {
    Unloaded,
    Loaded,
    ModuleStarted,
    RequestStarted,
}

/// The six lifecycle entry points of the runtime, three that start a phase
/// and the three teardowns that mirror them.
#[derive(Copy, Clone, Debug, PartialEq, Eq, Structural)]
pub enum LifecycleCall {
    SapiStartup,
    ModuleStartup,
    RequestStartup,
    RequestShutdown,
    ModuleShutdown,
    SapiShutdown,
}

/// The lifecycle machine's transition relation: which call is accepted in
/// which stage, and the stage it leads to.  Every pair not listed is a
/// caller contract violation — at the runtime level it is undefined, not a
/// recoverable error — and has no successor stage.
pub open spec fn lifecycle_step(s: LifecycleStage, c: LifecycleCall) -> Option<LifecycleStage> {
    match (s, c) {
        (LifecycleStage::Unloaded, LifecycleCall::SapiStartup) => Some(LifecycleStage::Loaded),
        (LifecycleStage::Loaded, LifecycleCall::ModuleStartup) => Some(
            LifecycleStage::ModuleStarted,
        ),
        (LifecycleStage::ModuleStarted, LifecycleCall::RequestStartup) => Some(
            LifecycleStage::RequestStarted,
        ),
        (LifecycleStage::RequestStarted, LifecycleCall::RequestShutdown) => Some(
            LifecycleStage::ModuleStarted,
        ),
        (LifecycleStage::ModuleStarted, LifecycleCall::ModuleShutdown) => Some(
            LifecycleStage::Loaded,
        ),
        (LifecycleStage::Loaded, LifecycleCall::SapiShutdown) => Some(LifecycleStage::Unloaded),
        _ => None,
    }
}

/// Runs the machine through a sequence of calls; the result is the final
/// stage, or nothing as soon as one call is not accepted.
pub open spec fn apply_calls(s: LifecycleStage, calls: Seq<LifecycleCall>) -> Option<
    LifecycleStage,
>
    decreases calls.len(),
{
    if calls.len() == 0 {
        Some(s)
    } else {
        match lifecycle_step(s, calls[0]) {
            Some(s2) => apply_calls(s2, calls.skip(1)),
            None => None,
        }
    }
}

/// The startup calls that build a stage from nothing, in the order they
/// are made.
pub open spec fn startup_calls(s: LifecycleStage) -> Seq<LifecycleCall> {
    match s {
        LifecycleStage::Unloaded => seq![],
        LifecycleStage::Loaded => seq![LifecycleCall::SapiStartup],
        LifecycleStage::ModuleStarted => seq![
            LifecycleCall::SapiStartup,
            LifecycleCall::ModuleStartup,
        ],
        LifecycleStage::RequestStarted => seq![
            LifecycleCall::SapiStartup,
            LifecycleCall::ModuleStartup,
            LifecycleCall::RequestStartup,
        ],
    }
}

/// The teardown calls a stage owes, in the order they must be made.
pub open spec fn teardown_calls(s: LifecycleStage) -> Seq<LifecycleCall> {
    match s {
        LifecycleStage::Unloaded => seq![],
        LifecycleStage::Loaded => seq![LifecycleCall::SapiShutdown],
        LifecycleStage::ModuleStarted => seq![
            LifecycleCall::ModuleShutdown,
            LifecycleCall::SapiShutdown,
        ],
        LifecycleStage::RequestStarted => seq![
            LifecycleCall::RequestShutdown,
            LifecycleCall::ModuleShutdown,
            LifecycleCall::SapiShutdown,
        ],
    }
}

/// The teardown call that undoes one startup call.
pub open spec fn shutdown_call_for(c: LifecycleCall) -> LifecycleCall {
    match c {
        LifecycleCall::SapiStartup => LifecycleCall::SapiShutdown,
        LifecycleCall::ModuleStartup => LifecycleCall::ModuleShutdown,
        LifecycleCall::RequestStartup => LifecycleCall::RequestShutdown,
        LifecycleCall::RequestShutdown => LifecycleCall::RequestStartup,
        LifecycleCall::ModuleShutdown => LifecycleCall::ModuleStartup,
        LifecycleCall::SapiShutdown => LifecycleCall::SapiStartup,
    }
}

/// A stage's teardown sequence is exactly its startup sequence reversed,
/// each startup replaced by its matching shutdown.
pub proof fn lemma_teardown_mirrors_startup(s: LifecycleStage)
    ensures
        teardown_calls(s) =~= startup_calls(s).reverse().map_values(
            |c: LifecycleCall| shutdown_call_for(c),
        ),
{
}

/// For any stage built by a sequence of accepted lifecycle calls, the
/// teardown calls issued in exact reverse order are each accepted and
/// return the machine to the unloaded stage; no other stage is passed on
/// the way.  Out-of-order teardowns are not accepted by the machine at
/// all, so they are excluded rather than given a meaning.
pub proof fn lemma_teardown_reverse_succeeds(s: LifecycleStage)
    ensures
        apply_calls(LifecycleStage::Unloaded, startup_calls(s)) == Some(s),
        apply_calls(s, teardown_calls(s)) == Some(LifecycleStage::Unloaded),
{
    reveal_with_fuel(apply_calls, 5);
    assert(startup_calls(LifecycleStage::Loaded).skip(1) =~= Seq::<LifecycleCall>::empty());
    assert(startup_calls(LifecycleStage::ModuleStarted).skip(1) =~= seq![
        LifecycleCall::ModuleStartup,
    ]);
    assert(startup_calls(LifecycleStage::RequestStarted).skip(1) =~= seq![
        LifecycleCall::ModuleStartup,
        LifecycleCall::RequestStartup,
    ]);
    assert(seq![LifecycleCall::ModuleStartup, LifecycleCall::RequestStartup].skip(1) =~= seq![
        LifecycleCall::RequestStartup,
    ]);
    assert(seq![LifecycleCall::ModuleStartup].skip(1) =~= Seq::<LifecycleCall>::empty());
    assert(seq![LifecycleCall::RequestStartup].skip(1) =~= Seq::<LifecycleCall>::empty());
    assert(teardown_calls(LifecycleStage::Loaded).skip(1) =~= Seq::<LifecycleCall>::empty());
    assert(teardown_calls(LifecycleStage::ModuleStarted).skip(1) =~= seq![
        LifecycleCall::SapiShutdown,
    ]);
    assert(teardown_calls(LifecycleStage::RequestStarted).skip(1) =~= seq![
        LifecycleCall::ModuleShutdown,
        LifecycleCall::SapiShutdown,
    ]);
    assert(seq![LifecycleCall::ModuleShutdown, LifecycleCall::SapiShutdown].skip(1) =~= seq![
        LifecycleCall::SapiShutdown,
    ]);
    assert(seq![LifecycleCall::SapiShutdown].skip(1) =~= Seq::<LifecycleCall>::empty());
}

/// A live request phase: the runtime is executing, or ready to execute,
/// one bounded unit of script work.  Torn down first, before its module
/// phase.
#[derive(Debug)]
pub struct PhpRequest {
    pub inner: PhpModule,
}

impl PhpRequest {
    /// The lifecycle stage a live value of this type stands for.
    pub open spec fn stage() -> LifecycleStage {
        LifecycleStage::RequestStarted
    }

    /// Records the outcome of the per-request startup entry point, called
    /// with no arguments.  On success the module phase is consumed into
    /// the new request phase; on failure it is handed back intact, ready
    /// for another attempt.
    pub fn startup(inner: PhpModule, code: ZendResultCode) -> (r: Result<PhpRequest, PhpModule>)
        ensures
            lifecycle_step(PhpModule::stage(), LifecycleCall::RequestStartup) == Some(
                PhpRequest::stage(),
            ),
            code is Success <==> r is Ok,
            r matches Ok(rq) ==> rq.inner == inner,
            r matches Err(m) ==> m == inner,
    {
        match code {
            ZendResultCode::Success => Ok(PhpRequest { inner }),
            ZendResultCode::Failure => Err(inner),
        }
    }

    /// Request teardown: always taken, even when the execution itself
    /// reported an error — execution errors are not lifecycle errors.  The
    /// request shutdown entry point's own result is ignored, and the
    /// module phase comes back for further requests or for its teardown.
    pub fn shutdown(self) -> (m: PhpModule)
        ensures
            lifecycle_step(PhpRequest::stage(), LifecycleCall::RequestShutdown) == Some(
                PhpModule::stage(),
            ),
            m == self.inner,
    {
        self.inner
    }

    /// Tears down every remaining phase in exact reverse order of their
    /// creation: request, then module, then runtime.
    pub fn shutdown_all(self) {
        self.shutdown().shutdown_all()
    }
}

/// A live module phase: runtime-wide initialization is complete, and zero
/// or more request phases may be derived from it, one at a time.
#[derive(Debug)]
pub struct PhpModule {
    pub inner: Php,
}

impl PhpModule {
    /// The lifecycle stage a live value of this type stands for.
    pub open spec fn stage() -> LifecycleStage {
        LifecycleStage::ModuleStarted
    }

    /// Records the outcome of the module startup entry point, called with
    /// the SAPI descriptor and no extra argument block.  On failure the
    /// runtime handle is handed back intact for inspection or retry.
    pub fn startup(inner: Php, code: ZendResultCode) -> (r: Result<PhpModule, Php>)
        ensures
            lifecycle_step(Php::stage(), LifecycleCall::ModuleStartup) == Some(PhpModule::stage()),
            code is Success <==> r is Ok,
            r matches Ok(m) ==> m.inner == inner,
            r matches Err(p) ==> p == inner,
    {
        match code {
            ZendResultCode::Success => Ok(PhpModule { inner }),
            ZendResultCode::Failure => Err(inner),
        }
    }

    /// Derives a request phase, consuming the module phase so that no
    /// second request can run beside it; `code` is the outcome the
    /// per-request startup entry point reported.
    pub fn startup_request(self, code: ZendResultCode) -> (r: Result<PhpRequest, PhpModule>)
        ensures
            lifecycle_step(PhpModule::stage(), LifecycleCall::RequestStartup) == Some(
                PhpRequest::stage(),
            ),
            code is Success <==> r is Ok,
            r matches Ok(rq) ==> rq.inner == self,
            r matches Err(m) ==> m == self,
    {
        PhpRequest::startup(self, code)
    }

    /// Module teardown: the module shutdown entry point has no result to
    /// report, and the runtime handle comes back for its own teardown.
    pub fn shutdown(self) -> (p: Php)
        ensures
            lifecycle_step(PhpModule::stage(), LifecycleCall::ModuleShutdown) == Some(
                Php::stage(),
            ),
            p == self.inner,
    {
        self.inner
    }

    /// Tears down the module phase and then the runtime handle, in that
    /// order.
    pub fn shutdown_all(self) {
        self.shutdown().shutdown()
    }
}

/// The loaded runtime handle: the image is pinned, the SAPI descriptor is
/// registered, and the runtime's first start call has been made.  Exactly
/// one is expected per process, and it is torn down last.
#[derive(Debug)]
pub struct Php {
    pub sapi_module: SapiModuleStruct,
}

impl Php {
    /// The lifecycle stage a live value of this type stands for.
    pub open spec fn stage() -> LifecycleStage {
        LifecycleStage::Loaded
    }

    /// Derives the module phase; `code` is the outcome the module startup
    /// entry point reported when called with this handle's descriptor.
    pub fn startup_module(self, code: ZendResultCode) -> (r: Result<PhpModule, Php>)
        ensures
            lifecycle_step(Php::stage(), LifecycleCall::ModuleStartup) == Some(PhpModule::stage()),
            code is Success <==> r is Ok,
            r matches Ok(m) ==> m.inner == self,
            r matches Err(p) ==> p == self,
    {
        PhpModule::startup(self, code)
    }

    /// Runtime teardown: the final lifecycle call, after module and
    /// request teardown.  Consuming the handle ends the lifecycle; the
    /// image itself stays pinned for the process lifetime.
    pub fn shutdown(self)
        ensures
            lifecycle_step(Php::stage(), LifecycleCall::SapiShutdown) == Some(
                LifecycleStage::Unloaded,
            ),
    {
    }
}

/// The not-yet-started embedding: holds the host's definition of itself
/// until the runtime's first start call is made.
pub struct PhpInit<S: Sapi> {
    pub sapi: S,
}

impl<S: Sapi> PhpInit<S> {
    /// Wraps the host definition.  The host's listener must be installed
    /// in the bridge's registration slot before `init` is driven.
    pub fn new(sapi: S) -> (r: PhpInit<S>)
        ensures
            r.sapi == sapi,
    {
        PhpInit { sapi }
    }

    /// Builds the SAPI descriptor from the host definition and takes the
    /// runtime to the loaded stage: the handle owns a descriptor carrying
    /// the host's three strings byte for byte.  The runtime's sapi-startup
    /// entry point reports no result, so this transition always succeeds.
    pub fn init(self) -> (r: PhpResult<Php>)
        ensures
            lifecycle_step(LifecycleStage::Unloaded, LifecycleCall::SapiStartup) == Some(
                Php::stage(),
            ),
            r matches PhpResult::Success(p) && p.sapi_module.name@ == self.sapi.name_spec()
                && p.sapi_module.pretty_name@ == self.sapi.pretty_name_spec()
                && p.sapi_module.executable_location@ == self.sapi.executable_location_spec(),
    {
        PhpResult::Success(Php { sapi_module: self.sapi.into_raw() })
    }
}

} // verus!
