use vstd::prelude::*;

use crate::error::{context_mismatch_prefix, BridgeError, ErrorClass};
use crate::types::{id_to_boundary, ActrId, NativeActrId};

verus! {

/// A native execution context, told apart at construction: the canonical
/// runtime context, or any other implementation, known by its type name.
pub enum ContextKind<R> {
    Runtime(R),
    Other(String),
}

/// The capability object handed to workload code while it runs.
pub struct ContextBridge<R> {
    inner: R,
}

/// `e` reports that a context surface was asked of the implementation `found`.
pub open spec fn is_context_mismatch(e: BridgeError, found: Seq<char>) -> bool {
    &&& e.class == ErrorClass::Protocol
    &&& e.message@ == context_mismatch_prefix() + found
}

impl<R> ContextBridge<R> {
    /// The runtime context this surface forwards to.
    pub closed spec fn context(&self) -> R {
        self.inner
    }

    /// Derives a context surface; only the canonical runtime context is accepted,
    /// and nothing is reinterpreted on a mismatch.
    pub fn try_from_context(ctx: ContextKind<R>) -> (r: Result<ContextBridge<R>, BridgeError>)
        ensures
            match ctx {
                ContextKind::Runtime(c) => r is Ok && r->Ok_0.context() == c,
                ContextKind::Other(found) => r is Err && is_context_mismatch(r->Err_0, found@),
            },
    {
        match ctx {
            ContextKind::Runtime(c) => Ok(ContextBridge { inner: c }),
            ContextKind::Other(found) => Err(BridgeError::context_mismatch(found.as_str())),
        }
    }

    /// The runtime context this surface forwards to.
    pub fn runtime(&self) -> (r: &R)
        ensures
            *r == self.context(),
    {
        &self.inner
    }

    /// The host form of the identifier of the call being serviced, if any.
    pub fn call_id_from_native(id: Option<NativeActrId>) -> (r: Option<ActrId>)
        ensures
            match id {
                Some(n) => r == Some(id_to_boundary(n)),
                None => r is None,
            },
    {
        match id {
            Some(n) => Some(ActrId::from_native(n)),
            None => None,
        }
    }
}

} // verus!
