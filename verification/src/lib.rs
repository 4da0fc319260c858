//! Host runtime for sandboxed WebAssembly guests.
//!
//! The library compiles signed guest components against a bounded engine,
//! instantiates them into isolated execution contexts, and routes every
//! guest-initiated capability request through a two-tier dispatcher:
//! built-in capabilities (logging, random numbers) are served in process,
//! everything else is forwarded to an injected external handler.

/// Error taxonomy shared by the whole crate.
pub mod errors;

/// Signed claims embedded in a guest component.
pub mod claims;

/// Engine configuration: resource bounds and allocation strategy.
pub mod config;

/// The capability dispatcher and its built-in providers.
pub mod dispatch;

/// Compiled components and their execution contexts.
pub mod component;

/// Scanning of the wasm binary section framing that carries claims.
pub mod wasmbin;

/// Classification of artifact reference strings.
pub mod reference;

/// Lifecycle event payloads supplied to the event bus.
pub mod events;

pub use crate::component::{ActorComponent, ActorInstance as ActorComponentInstance};
pub use crate::config::{ComponentConfig, Runtime, RuntimeBuilder};
pub use crate::dispatch::{
    BuiltinHandler as BuiltinCapabilityHandler, Handler as CapabilityHandler,
    Logging as LoggingCapability, Numbergen as NumbergenCapability,
};
