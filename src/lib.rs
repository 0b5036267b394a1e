use vstd::prelude::*;

pub mod context;
pub mod error;
pub mod runtime;
pub mod types;
pub mod workload;

pub use context::{ContextBridge, ContextKind};
pub use error::{BridgeError, ErrorClass};
pub use runtime::{ActrNode, ActrRef, ActrSystem};
pub use types::{
    ActrId, ActrType, DataStream, MetadataEntry, NativeActrId, NativeDataStream,
    NativeRpcEnvelope, PayloadType, Realm, RpcEnvelopeBridge,
};
pub use workload::{DispatchOutcome, DynamicDispatcher, DynamicWorkload};

verus! {

} // verus!
