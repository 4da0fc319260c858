use vstd::prelude::*;

use crate::errors::ConfigError;

verus! {

#[verifier::external_type_specification]
#[verifier::external_body]
pub struct ExEngine(wasmtime::Engine);

#[verifier::external_type_specification]
#[verifier::external_body]
pub struct ExWasmComponent(wasmtime::component::Component);

#[verifier::external_type_specification]
#[verifier::external_body]
#[verifier::reject_recursive_types(T)]
pub struct ExStore<T: 'static>(wasmtime::Store<T>);

#[verifier::external_type_specification]
#[verifier::external_body]
#[verifier::reject_recursive_types(T)]
pub struct ExLinker<T: 'static>(wasmtime::component::Linker<T>);

#[verifier::external_type_specification]
#[verifier::external_body]
pub struct ExWasmInstance(wasmtime::component::Instance);

/// Cloning an engine yields a handle to the same shared engine; compiled
/// code and configuration are never duplicated.  Relies on the
/// reference-counted `Clone` of `wasmtime::Engine`.
pub assume_specification[ <wasmtime::Engine as Clone>::clone ](e: &wasmtime::Engine) -> (r:
    wasmtime::Engine)
    ensures
        r == *e,
;

/// Cloning a compiled component yields a handle to the same shared
/// compiled code; nothing is recompiled.  Relies on the
/// reference-counted `Clone` of `wasmtime::component::Component`.
pub assume_specification[ <wasmtime::component::Component as Clone>::clone ](c:
    &wasmtime::component::Component) -> (r: wasmtime::component::Component)
    ensures
        r == *c,
;

/// Default cap on linear memory usable by components (256 MiB).
pub const MAX_LINEAR_MEMORY: u64 = 256 * 1024 * 1024;

/// Default cap on the size of a single component (50 MiB).
pub const MAX_COMPONENT_SIZE: u64 = 50 * 1024 * 1024;

/// Default cap on the number of simultaneously loaded components.
pub const MAX_COMPONENTS: u32 = 10000;

/// Default cap on guest execution time, in seconds (ten minutes).
pub const DEFAULT_MAX_EXECUTION_SECS: u64 = 600;

/// Settings applied to every component instantiated from a runtime.
#[derive(Clone, Debug, PartialEq, Eq, Structural, Default)]
pub struct ComponentConfig {}

/// Configures and builds a [`Runtime`].
pub struct RuntimeBuilder {
    /// Cap on the number of simultaneously loaded components.
    pub max_components: u32,
    /// Cap on the byte size of one component.
    pub max_component_size: u64,
    /// Cap on linear memory usable by components.
    pub max_linear_memory: u64,
    /// Cap on guest execution time, in whole seconds.
    pub max_execution_secs: u64,
    /// Settings for component instances.
    pub component_config: ComponentConfig,
    /// Skip the platform probe and demand the pooling allocator.
    pub force_pooling_allocator: bool,
}

/// Relies on `wasmtime::{Config, Engine, Store, Memory}`: probes whether
/// this host can reserve a 2^42-byte-addressable memory region, the
/// precondition for the pooling allocation strategy.  The outcome depends
/// on the machine, so nothing is promised of it.
#[verifier::external_body]
fn probe_pooling() -> (r: bool) {
    let mut config = wasmtime::Config::new();
    config.wasm_memory64(true);
    config.memory_reservation(1 << 42);
    let Ok(engine) = wasmtime::Engine::new(&config) else {
        return false;
    };
    let mut store = wasmtime::Store::new(&engine, ());
    let ty = wasmtime::MemoryType::new64(0, Some(1 << (42 - 16)));
    wasmtime::Memory::new(&mut store, ty).is_ok()
}

/// Relies on `wasmtime::{Config, PoolingAllocationConfig, Engine::new}`:
/// builds the execution engine from the resolved settings, with the
/// component model and epoch-based interruption enabled, pooled
/// allocation sized by the given bounds when requested.
#[verifier::external_body]
fn new_engine(max_components: u32, max_linear_memory: u64, use_pooling: bool) -> (r: Result<
    wasmtime::Engine,
    String,
>) {
    let mut config = wasmtime::Config::new();
    config.wasm_component_model(true).epoch_interruption(true);
    config.memory_reservation(max_linear_memory).memory_reservation_for_growth(0);
    config.memory_guard_size(0x1_0000);
    if use_pooling {
        let mut pool = wasmtime::PoolingAllocationConfig::default();
        pool.total_component_instances(max_components).total_core_instances(max_components);
        pool.total_memories(max_components).total_tables(max_components);
        pool.max_memory_size(max_linear_memory as usize);
        config.allocation_strategy(wasmtime::InstanceAllocationStrategy::Pooling(pool));
    }
    wasmtime::Engine::new(&config).map_err(|e| format!("{e:#}"))
}

impl RuntimeBuilder {
    /// A builder holding the default bounds.
    pub fn new() -> (r: RuntimeBuilder)
        ensures
            r.max_components == MAX_COMPONENTS,
            r.max_component_size == MAX_COMPONENT_SIZE,
            r.max_linear_memory == MAX_LINEAR_MEMORY,
            r.max_execution_secs == DEFAULT_MAX_EXECUTION_SECS,
            r.component_config == (ComponentConfig {}),
            !r.force_pooling_allocator,
    {
        RuntimeBuilder {
            max_components: MAX_COMPONENTS,
            max_component_size: MAX_COMPONENT_SIZE,
            max_linear_memory: MAX_LINEAR_MEMORY,
            max_execution_secs: DEFAULT_MAX_EXECUTION_SECS,
            component_config: ComponentConfig {},
            force_pooling_allocator: false,
        }
    }

    /// Replaces the per-component settings; every other bound is kept.
    pub fn component_config(self, component_config: ComponentConfig) -> (r: Self)
        ensures
            r.component_config == component_config,
            r.max_components == self.max_components,
            r.max_component_size == self.max_component_size,
            r.max_linear_memory == self.max_linear_memory,
            r.max_execution_secs == self.max_execution_secs,
            r.force_pooling_allocator == self.force_pooling_allocator,
    {
        Self { component_config, ..self }
    }

    /// Caps how many components may be loaded at once.
    pub fn max_components(self, max_components: u32) -> (r: Self)
        ensures
            r.max_components == max_components,
            r.max_component_size == self.max_component_size,
            r.max_linear_memory == self.max_linear_memory,
            r.max_execution_secs == self.max_execution_secs,
            r.component_config == self.component_config,
            r.force_pooling_allocator == self.force_pooling_allocator,
    {
        Self { max_components, ..self }
    }

    /// Caps the byte size of a single component.
    pub fn max_component_size(self, max_component_size: u64) -> (r: Self)
        ensures
            r.max_component_size == max_component_size,
            r.max_components == self.max_components,
            r.max_linear_memory == self.max_linear_memory,
            r.max_execution_secs == self.max_execution_secs,
            r.component_config == self.component_config,
            r.force_pooling_allocator == self.force_pooling_allocator,
    {
        Self { max_component_size, ..self }
    }

    /// Caps the linear memory usable by components.
    pub fn max_linear_memory(self, max_linear_memory: u64) -> (r: Self)
        ensures
            r.max_linear_memory == max_linear_memory,
            r.max_components == self.max_components,
            r.max_component_size == self.max_component_size,
            r.max_execution_secs == self.max_execution_secs,
            r.component_config == self.component_config,
            r.force_pooling_allocator == self.force_pooling_allocator,
    {
        Self { max_linear_memory, ..self }
    }

    /// Caps guest execution time, in whole seconds.  One second is the
    /// minimum: any smaller request is clamped up to one second.
    pub fn max_execution_time(self, max_execution_secs: u64) -> (r: Self)
        ensures
            r.max_execution_secs == if max_execution_secs < 1 {
                1u64
            } else {
                max_execution_secs
            },
            r.max_components == self.max_components,
            r.max_component_size == self.max_component_size,
            r.max_linear_memory == self.max_linear_memory,
            r.component_config == self.component_config,
            r.force_pooling_allocator == self.force_pooling_allocator,
    {
        let clamped: u64 = if max_execution_secs < 1 {
            1
        } else {
            max_execution_secs
        };
        Self { max_execution_secs: clamped, ..self }
    }

    /// Demands the pooling allocator without probing the platform; the
    /// build may then fail where the host cannot reserve the pool.
    pub fn force_pooling_allocator(self) -> (r: Self)
        ensures
            r.force_pooling_allocator,
            r.max_components == self.max_components,
            r.max_component_size == self.max_component_size,
            r.max_linear_memory == self.max_linear_memory,
            r.max_execution_secs == self.max_execution_secs,
            r.component_config == self.component_config,
    {
        Self { force_pooling_allocator: true, ..self }
    }

    /// Builds the runtime.  When pooling is forced the probe is skipped;
    /// otherwise the allocation strategy follows the platform probe.  A
    /// runtime that is returned carries this builder's bounds unchanged.
    pub fn build(self) -> (r: Result<Runtime, ConfigError>)
        ensures
            r matches Ok(rt) ==> rt.component_config == self.component_config
                && rt.max_execution_secs == self.max_execution_secs && rt.max_component_size
                == self.max_component_size,
    {
        let use_pooling = if self.force_pooling_allocator {
            true
        } else {
            probe_pooling()
        };
        match new_engine(self.max_components, self.max_linear_memory, use_pooling) {
            Ok(engine) => Ok(
                Runtime {
                    engine,
                    component_config: self.component_config,
                    max_execution_secs: self.max_execution_secs,
                    max_component_size: self.max_component_size,
                },
            ),
            Err(m) => Err(ConfigError::Engine(m)),
        }
    }
}

/// The shared, immutable execution engine configuration: compiled-code
/// cache, resource bounds, and allocation strategy.  Safe to share by
/// reference across all compiled units.
pub struct Runtime {
    /// The underlying execution engine.
    pub engine: wasmtime::Engine,
    /// Settings applied to every component instance.
    pub component_config: ComponentConfig,
    /// Cap on guest execution time, in whole seconds.
    pub max_execution_secs: u64,
    /// Cap on the byte size of one component.
    pub max_component_size: u64,
}

impl Runtime {
    /// A runtime built from the default bounds.
    pub fn new() -> (r: Result<Runtime, ConfigError>)
        ensures
            r matches Ok(rt) ==> rt.max_execution_secs == DEFAULT_MAX_EXECUTION_SECS
                && rt.max_component_size == MAX_COMPONENT_SIZE,
    {
        Runtime::builder().build()
    }

    /// A builder for a runtime, holding the default bounds.
    pub fn builder() -> (r: RuntimeBuilder)
        ensures
            r.max_components == MAX_COMPONENTS,
            r.max_component_size == MAX_COMPONENT_SIZE,
            r.max_linear_memory == MAX_LINEAR_MEMORY,
            r.max_execution_secs == DEFAULT_MAX_EXECUTION_SECS,
            !r.force_pooling_allocator,
    {
        RuntimeBuilder::new()
    }

    /// The runtime's version string.
    pub fn version(&self) -> (r: &'static str)
        ensures
            r@ == "0.1.0"@,
    {
        "0.1.0"
    }
}

} // verus!
