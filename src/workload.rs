use vstd::prelude::*;

use std::sync::Arc;

use crate::context::{is_context_mismatch, ContextBridge, ContextKind};
use crate::error::{contains, missing_entry_prefix, protocol_prefix, BridgeError, ErrorClass};
use crate::types::{envelope_bytes, NativeRpcEnvelope, RpcEnvelopeBridge};

verus! {

/// The three entry points of a host workload object, held as shared handles
/// for the adapter's lifetime. `S` is a lifecycle handle, `D` the dispatch handle.
pub struct DynamicWorkload<S, D> {
    on_start_fn: Arc<S>,
    on_stop_fn: Arc<S>,
    dispatch_fn: Arc<D>,
}

/// `e` reports that a host object lacks the entry point `name`.
pub open spec fn is_missing_entry(e: BridgeError, name: Seq<char>) -> bool {
    &&& e.class == ErrorClass::Boundary
    &&& e.message@ == missing_entry_prefix() + name
}

/// Which entry point a host object lacks first, in the order start, stop, dispatch.
pub open spec fn first_missing<S, D>(
    on_start: Option<S>,
    on_stop: Option<S>,
    dispatch: Option<D>,
) -> Option<Seq<char>> {
    if on_start is None {
        Some("onStart"@)
    } else if on_stop is None {
        Some("onStop"@)
    } else if dispatch is None {
        Some("dispatch"@)
    } else {
        None
    }
}

impl<S, D> DynamicWorkload<S, D> {
    pub closed spec fn on_start_handle(&self) -> S {
        *self.on_start_fn
    }

    pub closed spec fn on_stop_handle(&self) -> S {
        *self.on_stop_fn
    }

    pub closed spec fn dispatch_handle(&self) -> D {
        *self.dispatch_fn
    }

    /// Builds the adapter from the entry points found on a host object; `None`
    /// stands for one that is missing or not callable. Fails before any use.
    pub fn new(on_start: Option<S>, on_stop: Option<S>, dispatch: Option<D>) -> (r: Result<
        DynamicWorkload<S, D>,
        BridgeError,
    >)
        ensures
            r is Ok <==> first_missing(on_start, on_stop, dispatch) is None,
            r is Ok ==> {
                &&& on_start == Some(r->Ok_0.on_start_handle())
                &&& on_stop == Some(r->Ok_0.on_stop_handle())
                &&& dispatch == Some(r->Ok_0.dispatch_handle())
            },
            r is Err ==> is_missing_entry(
                r->Err_0,
                first_missing(on_start, on_stop, dispatch)->Some_0,
            ),
    {
        match (on_start, on_stop, dispatch) {
            (Some(a), Some(b), Some(c)) => Ok(
                DynamicWorkload { on_start_fn: Arc::new(a), on_stop_fn: Arc::new(b), dispatch_fn: Arc::new(c) },
            ),
            (None, _, _) => Err(BridgeError::missing_entry_point("onStart")),
            (Some(_), None, _) => Err(BridgeError::missing_entry_point("onStop")),
            (Some(_), Some(_), None) => Err(BridgeError::missing_entry_point("dispatch")),
        }
    }

    /// The shared `onStart` handle.
    pub fn on_start_fn(&self) -> (r: &Arc<S>)
        ensures
            **r == self.on_start_handle(),
    {
        &self.on_start_fn
    }

    /// The shared `onStop` handle.
    pub fn on_stop_fn(&self) -> (r: &Arc<S>)
        ensures
            **r == self.on_stop_handle(),
    {
        &self.on_stop_fn
    }

    /// The shared `dispatch` handle.
    pub fn dispatch_fn(&self) -> (r: &Arc<D>)
        ensures
            **r == self.dispatch_handle(),
    {
        &self.dispatch_fn
    }

    /// Readies a start event: derives the context surface and picks the
    /// `onStart` handle, or reports why the context cannot be used.
    pub fn on_start<R>(&self, ctx: ContextKind<R>) -> (r: Result<(&Arc<S>, ContextBridge<R>), BridgeError>)
        ensures
            match ctx {
                ContextKind::Runtime(c) => r is Ok && *r->Ok_0.0 == self.on_start_handle()
                    && r->Ok_0.1.context() == c,
                ContextKind::Other(found) => r is Err && is_context_mismatch(r->Err_0, found@),
            },
    {
        let bridge = ContextBridge::try_from_context(ctx)?;
        Ok((&self.on_start_fn, bridge))
    }

    /// Readies a stop event: derives the context surface and picks the
    /// `onStop` handle, or reports why the context cannot be used.
    pub fn on_stop<R>(&self, ctx: ContextKind<R>) -> (r: Result<(&Arc<S>, ContextBridge<R>), BridgeError>)
        ensures
            match ctx {
                ContextKind::Runtime(c) => r is Ok && *r->Ok_0.0 == self.on_stop_handle()
                    && r->Ok_0.1.context() == c,
                ContextKind::Other(found) => r is Err && is_context_mismatch(r->Err_0, found@),
            },
    {
        let bridge = ContextBridge::try_from_context(ctx)?;
        Ok((&self.on_stop_fn, bridge))
    }
}

/// How a cross-boundary dispatch ended: it could not be scheduled, the host's
/// promise was rejected, or it resolved to response bytes.
pub enum DispatchOutcome {
    NotScheduled(String),
    Rejected(String),
    Resolved(Vec<u8>),
}

/// The stateless invoker of a workload's `dispatch` entry point.
pub struct DynamicDispatcher;

impl DynamicDispatcher {
    /// Readies an inbound call: derives the context surface and gives the
    /// envelope its host form, or reports why the context cannot be used.
    pub fn prepare<R>(envelope: NativeRpcEnvelope, ctx: ContextKind<R>) -> (r: Result<
        (ContextBridge<R>, RpcEnvelopeBridge),
        BridgeError,
    >)
        ensures
            match ctx {
                ContextKind::Runtime(c) => r is Ok && r->Ok_0.0.context() == c && {
                    let e = r->Ok_0.1;
                    &&& e.route_key == envelope.route_key
                    &&& e.request_id == envelope.request_id
                    &&& e.payload@ == envelope_bytes(envelope.payload)
                },
                ContextKind::Other(found) => r is Err && is_context_mismatch(r->Err_0, found@),
            },
    {
        let bridge = ContextBridge::try_from_context(ctx)?;
        Ok((bridge, RpcEnvelopeBridge::from_native(envelope)))
    }

    /// The RPC result of a dispatch: the resolved bytes verbatim, or a
    /// protocol error that keeps the failure's text.
    pub fn finish(outcome: DispatchOutcome) -> (r: Result<Vec<u8>, BridgeError>)
        ensures
            match outcome {
                DispatchOutcome::Resolved(bytes) => r is Ok && r->Ok_0@ == bytes@,
                DispatchOutcome::NotScheduled(text) | DispatchOutcome::Rejected(text) => {
                    &&& r is Err
                    &&& r->Err_0.class == ErrorClass::Protocol
                    &&& r->Err_0.message@ == protocol_prefix() + text@
                    &&& contains(r->Err_0.message@, text@)
                },
            },
    {
        match outcome {
            DispatchOutcome::Resolved(bytes) => Ok(bytes),
            DispatchOutcome::NotScheduled(text) => Err(BridgeError::protocol(text.as_str())),
            DispatchOutcome::Rejected(text) => Err(BridgeError::protocol(text.as_str())),
        }
    }
}

} // verus!
