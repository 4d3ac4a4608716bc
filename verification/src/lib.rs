//! Core of an actor runtime for WebAssembly guests.
//!
//! The crate holds the host-side rules of the runtime: the capability
//! handler set, the validation of embedded claims, the actor and instance
//! abstraction over module and component artifacts, and the instance pool.
//! Everything here is synchronous and works on plain values; driving an
//! engine and doing I/O is left to the caller.

pub mod actor;
pub mod capability;
pub mod claims;
pub mod error;
pub mod pool;
pub mod runtime;

pub use actor::{
    Actor, ComponentActor, ComponentGuestInstance, ComponentInstance, ComponentInterfaceInstance,
    Config, Encoding, Exports, Guest, GuestInstance, IncomingHttpInstance, Instance,
    LoggingInstance, ModuleActor, ModuleGuestInstance, ModuleInstance,
};
pub use capability::{
    Blobstore, BrokerMessage, Bus, BusReply, Capability, Handler, HandlerBuilder, IncomingHttp,
    KeyValueReadWrite, Level, Logging, Messaging,
};
pub use claims::{ActorClaims, EmbeddedToken, TokenValidation};
pub use error::{CallError, InstantiateError, Interface, LoadError, TokenFault};
pub use pool::{Checkout, InstancePool, Limit, PooledInstance, PooledInstances};
pub use runtime::Runtime;
