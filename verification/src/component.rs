use vstd::prelude::*;

use std::sync::Arc;

use crate::claims::{extract_claims, extraction_of, Claims, ClaimsView};
use crate::config::Runtime;
use crate::dispatch::{dispatch_view, DispatchResult, Handler};
use crate::errors::{CompileError, HostError, InstantiationError};

verus! {

/// Per-instance state reachable from the guest's host-call entry point: a
/// copy of the unit's claims and a shared handle to its dispatcher.
pub struct StoreData<H> {
    /// The claims of the guest this store belongs to.
    pub claims: Claims,
    /// The capability dispatcher shared by all instances of the unit.
    pub handler: Arc<H>,
}

/// Routes one guest-initiated host call through the capability
/// dispatcher.  The result is exactly the dispatcher's: the outer error
/// is a host-fatal infrastructure failure, the inner result is handed to
/// the guest unmodified.
pub fn host_call<H: Handler>(
    claims: &Claims,
    handler: &H,
    binding: String,
    namespace: String,
    operation: String,
    payload: Option<Vec<u8>>,
) -> (r: DispatchResult)
    ensures
        handler.handled(
            claims@,
            binding@,
            namespace@,
            operation@,
            payload.deep_view(),
            dispatch_view(r),
        ),
{
    handler.handle(claims, binding, namespace, operation, payload)
}

/// Relies on `wasmtime::component::Component::new`: compiles the bytes
/// against the engine's code generator.
#[verifier::external_body]
fn compile_component(engine: &wasmtime::Engine, wasm: &Vec<u8>) -> (r: Result<
    wasmtime::component::Component,
    String,
>) {
    wasmtime::component::Component::new(engine, wasm.as_slice()).map_err(|e| format!("{e:#}"))
}

/// Relies on `wasmtime::component::Linker::new`.
#[verifier::external_body]
fn new_linker<H: Handler + Send + Sync + 'static>(engine: &wasmtime::Engine) -> (r:
    wasmtime::component::Linker<StoreData<H>>) {
    wasmtime::component::Linker::new(engine)
}

/// Relies on `Linker::instance` and `LinkerInstance::func_wrap`:
/// registers the `host` interface's `host-call` entry point.  The closure
/// only reads the store's claims and dispatcher and calls the verified
/// [`host_call`]; an infrastructure error becomes a trap.
#[verifier::external_body]
fn link_host_call<H: Handler + Send + Sync + 'static>(
    linker: &mut wasmtime::component::Linker<StoreData<H>>,
) -> (r: Result<(), String>) {
    linker.instance("host").and_then(|mut i|
        i.func_wrap(
            "host-call",
            |cx: wasmtime::StoreContextMut<StoreData<H>>,
             (b, ns, op, p): (String, String, String, Option<Vec<u8>>)| {
                let d = cx.data();
                match host_call(&d.claims, d.handler.as_ref(), b, ns, op, p) {
                    Ok(res) => Ok((res,)),
                    Err(e) => Err(wasmtime::Error::msg(e.message())),
                }
            },
        )
    ).map_err(|e| format!("{e:#}"))
}

/// Relies on `wasmtime::Store::new` and `Store::set_epoch_deadline`: a
/// fresh isolated store whose data holds a copy of the unit's claims and
/// a shared handle to its dispatcher, with the execution deadline set to
/// the configured number of epoch ticks.
#[verifier::external_body]
fn new_store<H: Handler + Send + Sync + 'static>(
    engine: &wasmtime::Engine,
    claims: &Claims,
    handler: &Arc<H>,
    deadline_secs: u64,
) -> (r: wasmtime::Store<StoreData<H>>) {
    let mut store = wasmtime::Store::new(
        engine,
        StoreData { claims: claims.clone(), handler: Arc::clone(handler) },
    );
    store.set_epoch_deadline(deadline_secs);
    store
}

/// Relies on `Linker::instantiate`: links and instantiates the compiled
/// component against the store.
#[verifier::external_body]
fn instantiate_component<H: Handler + Send + Sync + 'static>(
    store: &mut wasmtime::Store<StoreData<H>>,
    linker: &wasmtime::component::Linker<StoreData<H>>,
    component: &wasmtime::component::Component,
) -> (r: Result<wasmtime::component::Instance, String>) {
    linker.instantiate(&mut *store, component).map_err(|e| format!("{e:#}"))
}

/// Relies on `Instance::get_export_index`, `Instance::get_typed_func`,
/// `TypedFunc::{call, post_return}`: invokes the guest's exported
/// `guest-call` and returns the guest's own result untouched.  The
/// lookup policy is deliberate: the entry point may be exported at the
/// component root or inside an `actor` instance, and the root is tried
/// first.
#[verifier::external_body]
fn call_guest<H: Handler + Send + Sync + 'static>(
    store: &mut wasmtime::Store<StoreData<H>>,
    instance: &wasmtime::component::Instance,
    operation: &String,
    payload: Option<Vec<u8>>,
) -> (r: Result<Result<Option<Vec<u8>>, String>, String>) {
    let f_idx = instance.get_export_index(&mut *store, None, "guest-call").or_else(|| {
        let actor = instance.get_export_index(&mut *store, None, "actor")?;
        instance.get_export_index(&mut *store, Some(&actor), "guest-call")
    }).ok_or_else(|| "guest-call export not found".to_string())?;
    let f = instance.get_typed_func::<(String, Option<Vec<u8>>), (Result<Option<Vec<u8>>, String>,
    )>(&mut *store, f_idx).map_err(|e| format!("{e:#}"))?;
    let out = f.call(&mut *store, (operation.clone(), payload)).map_err(|e| format!("{e:#}"))?;
    f.post_return(&mut *store).map_err(|e| format!("{e:#}"))?;
    Ok(out.0)
}

/// Relies on `std::sync::Arc::clone`: a new handle to the same shared
/// value.
#[verifier::external_body]
fn arc_share<T>(a: &Arc<T>) -> (r: Arc<T>)
    ensures
        r == *a,
{
    Arc::clone(a)
}

/// A compiled guest component bound to one engine, one claims record, and
/// one capability dispatcher.  Cloning is cheap and shares all four: the
/// compiled code and the engine are reference-counted handles, and the
/// dispatcher handle is shared; nothing is ever recompiled or
/// re-extracted.
pub struct ActorComponent<H> {
    /// The engine's compiled representation of the guest.
    pub component: wasmtime::component::Component,
    /// The engine the unit was compiled against.
    pub engine: wasmtime::Engine,
    /// The claims extracted from the guest bytes at compile time.
    pub claims: Claims,
    /// The dispatcher every instance of this unit will call.
    pub handler: Arc<H>,
    /// Cap on guest execution time, in whole seconds.
    pub max_execution_secs: u64,
}

impl<H> Clone for ActorComponent<H> {
    /// Cloning shares the compiled code, the engine, the claims, and the
    /// dispatcher handle; nothing is recompiled or re-extracted.
    fn clone(&self) -> (r: Self)
        ensures
            r.component == self.component,
            r.engine == self.engine,
            r.claims@ == self.claims@,
            r.handler == self.handler,
            r.max_execution_secs == self.max_execution_secs,
    {
        ActorComponent {
            component: self.component.clone(),
            engine: self.engine.clone(),
            claims: self.claims.duplicate(),
            handler: arc_share(&self.handler),
            max_execution_secs: self.max_execution_secs,
        }
    }
}

impl<H: Handler + Send + Sync + 'static> ActorComponent<H> {
    /// Compiles guest bytes against a runtime, in order: the claims are
    /// extracted and checked first — a module that fails extraction is
    /// rejected before any engine resource is spent on it — then the
    /// size bound is enforced, and only then is code generation
    /// attempted.  A unit that is returned is bound to the runtime's
    /// engine, the extracted claims, and the given dispatcher.
    pub fn new(rt: &Runtime, handler: Arc<H>, wasm: &Vec<u8>) -> (r: Result<
        ActorComponent<H>,
        CompileError,
    >)
        ensures
            r matches Err(CompileError::InvalidClaims(e)) ==> extraction_of(wasm@) == Err::<
                ClaimsView,
                crate::claims::ClaimsError,
            >(e),
            extraction_of(wasm@) is Err ==> (r matches Err(CompileError::InvalidClaims(e))
                && extraction_of(wasm@) == Err::<ClaimsView, crate::claims::ClaimsError>(e)),
            r matches Err(CompileError::TooLarge) <==> extraction_of(wasm@) is Ok && wasm@.len()
                > rt.max_component_size,
            r matches Ok(c) ==> wasm@.len() <= rt.max_component_size && extraction_of(wasm@)
                == Ok::<ClaimsView, crate::claims::ClaimsError>(c.claims@) && c.engine == rt.engine
                && c.handler == handler && c.max_execution_secs == rt.max_execution_secs,
    {
        let claims = match extract_claims(wasm) {
            Err(e) => {
                return Err(CompileError::InvalidClaims(e));
            },
            Ok(c) => c,
        };
        if wasm.len() as u64 > rt.max_component_size {
            return Err(CompileError::TooLarge);
        }
        let compiled = match compile_component(&rt.engine, wasm) {
            Err(m) => {
                return Err(CompileError::Compilation(m));
            },
            Ok(c) => c,
        };
        let engine = rt.engine.clone();
        Ok(
            ActorComponent {
                component: compiled,
                engine,
                claims,
                handler,
                max_execution_secs: rt.max_execution_secs,
            },
        )
    }

    /// Compiles guest bytes read into a buffer, exactly as [`Self::new`]
    /// does: the whole module must be buffered first, since claims
    /// extraction needs random access to its sections.
    pub fn read(rt: &Runtime, handler: Arc<H>, wasm: Vec<u8>) -> (r: Result<
        ActorComponent<H>,
        CompileError,
    >)
        ensures
            r matches Err(CompileError::InvalidClaims(e)) ==> extraction_of(wasm@) == Err::<
                ClaimsView,
                crate::claims::ClaimsError,
            >(e),
            extraction_of(wasm@) is Err ==> (r matches Err(CompileError::InvalidClaims(e))
                && extraction_of(wasm@) == Err::<ClaimsView, crate::claims::ClaimsError>(e)),
            r matches Err(CompileError::TooLarge) <==> extraction_of(wasm@) is Ok && wasm@.len()
                > rt.max_component_size,
            r matches Ok(c) ==> wasm@.len() <= rt.max_component_size && extraction_of(wasm@)
                == Ok::<ClaimsView, crate::claims::ClaimsError>(c.claims@) && c.engine == rt.engine
                && c.handler == handler && c.max_execution_secs == rt.max_execution_secs,
    {
        ActorComponent::new(rt, handler, &wasm)
    }

    /// The claims extracted from this unit's guest at compile time; they
    /// are never re-derived from a live instance.
    pub fn claims(&self) -> (r: &Claims)
        ensures
            r == &self.claims,
    {
        &self.claims
    }

    /// Instantiates this unit into a fresh isolated sandbox: registers
    /// the host-call entry point bound to the unit's claims and
    /// dispatcher, creates an isolated store with the execution deadline
    /// set, and links and instantiates the compiled component.  A bound
    /// that cannot be met fails cleanly here, before any guest code runs.
    pub fn instantiate(&self) -> (r: Result<ActorInstance<H>, InstantiationError>) {
        let mut linker = new_linker::<H>(&self.engine);
        match link_host_call(&mut linker) {
            Err(m) => {
                return Err(InstantiationError::Linking(m));
            },
            Ok(u) => u,
        };
        let mut store = new_store(&self.engine, &self.claims, &self.handler, self.max_execution_secs);
        match instantiate_component(&mut store, &linker, &self.component) {
            Err(m) => Err(InstantiationError::Instantiation(m)),
            Ok(instance) => Ok(ActorInstance { instance, store }),
        }
    }
}

/// One sandboxed instantiation of a compiled unit.  It serves exactly one
/// logical call sequence: it must not be shared across concurrent calls,
/// and after a host fault it must be discarded, not reused.
#[verifier::reject_recursive_types(H)]
pub struct ActorInstance<H: 'static> {
    /// The linked guest instance.
    pub instance: wasmtime::component::Instance,
    /// The instance's isolated store, holding its claims and dispatcher.
    pub store: wasmtime::Store<StoreData<H>>,
}

impl<H: Handler + Send + Sync + 'static> ActorInstance<H> {
    /// Invokes the guest's exported `guest-call` entry point with an
    /// operation name and optional payload.  The guest's own returned
    /// result — success payload or application-level error string — is
    /// passed through unmodified; an `Err` is a host-side fault (trap,
    /// deadline exceeded, resource exhaustion) and this instance must not
    /// be used again.
    pub fn call(&mut self, operation: &String, payload: Option<Vec<u8>>) -> (r: Result<
        Result<Option<Vec<u8>>, String>,
        HostError,
    >) {
        match call_guest(&mut self.store, &self.instance, operation, payload) {
            Ok(res) => Ok(res),
            Err(m) => Err(HostError::Fault(m)),
        }
    }
}

/// Compile idempotence: compiling the same bytes twice can only yield
/// units with equal claims, since extraction is a function of the bytes;
/// with the same runtime, [`Component::new`] further pins both units to
/// the same engine.
pub proof fn lemma_compile_idempotent(w: Seq<u8>, c1: ClaimsView, c2: ClaimsView)
    requires
        extraction_of(w) == Ok::<ClaimsView, crate::claims::ClaimsError>(c1),
        extraction_of(w) == Ok::<ClaimsView, crate::claims::ClaimsError>(c2),
    ensures
        c1 == c2,
{
}

} // verus!
