use vstd::prelude::*;

use crate::error::{node_started_message, system_consumed_message, BridgeError, ErrorClass};
use crate::types::{id_to_boundary, ActrId, NativeActrId};

verus! {

/// The first stage of the ownership chain: a system that may be attached once.
pub struct ActrSystem<S> {
    inner: Option<S>,
}

/// The second stage: a node holding its workload, that may be started once.
pub struct ActrNode<N> {
    inner: Option<N>,
}

/// The last stage: the durable handle of a running actor.
pub struct ActrRef<R> {
    inner: R,
}

/// `e` reports a second `attach` on one system.
pub open spec fn is_system_consumed(e: BridgeError) -> bool {
    &&& e.class == ErrorClass::Protocol
    &&& e.message@ == system_consumed_message()
}

/// `e` reports a second `start` on one node.
pub open spec fn is_node_started(e: BridgeError) -> bool {
    &&& e.class == ErrorClass::Protocol
    &&& e.message@ == node_started_message()
}

/// What `attach` guarantees of one call, from the system before it, the
/// workload it was given, the system after it and its result.
pub open spec fn attach_post<S, W, N>(
    before: ActrSystem<S>,
    workload: Result<W, BridgeError>,
    after: ActrSystem<S>,
    r: Result<ActrNode<N>, BridgeError>,
) -> bool {
    &&& after.is_consumed()
    &&& before.is_consumed() ==> r is Err && is_system_consumed(r->Err_0)
    &&& !before.is_consumed() && workload is Err ==> r is Err && r->Err_0 == workload->Err_0
    &&& !before.is_consumed() && workload is Ok ==> r is Ok && !r->Ok_0.is_started()
}

/// What `start` guarantees of one call, from the node before it, the node
/// after it and its result.
pub open spec fn start_post<N>(before: ActrNode<N>, after: ActrNode<N>, r: Result<N, BridgeError>) -> bool {
    &&& after.is_started()
    &&& before.is_started() ==> r is Err && is_node_started(r->Err_0)
    &&& !before.is_started() ==> r is Ok && r->Ok_0 == before.node()
}

impl<S> ActrSystem<S> {
    /// Whether the system's handle has moved on to a node.
    pub closed spec fn is_consumed(&self) -> bool {
        self.inner is None
    }

    /// The native system held while not consumed.
    pub closed spec fn system(&self) -> S {
        self.inner->Some_0
    }

    /// Wraps a freshly built native system.
    pub fn new(system: S) -> (r: ActrSystem<S>)
        ensures
            !r.is_consumed(),
            r.system() == system,
    {
        ActrSystem { inner: Some(system) }
    }

    /// Moves the system out and joins it with the workload into a node. The
    /// system is consumed by the first call whatever the workload; every later
    /// call fails as already consumed and calls nothing.
    pub fn attach<W, N, F: FnOnce(S, W) -> N>(
        &mut self,
        workload: Result<W, BridgeError>,
        join: F,
    ) -> (r: Result<ActrNode<N>, BridgeError>)
        requires
            forall|s: S, w: W| join.requires((s, w)),
        ensures
            attach_post(*old(self), workload, *final(self), r),
            r is Ok ==> join.ensures((old(self).system(), workload->Ok_0), r->Ok_0.node()),
    {
        let taken = self.inner.take();
        match taken {
            None => Err(BridgeError::system_consumed()),
            Some(system) => match workload {
                Err(e) => Err(e),
                Ok(w) => {
                    let node = join(system, w);
                    Ok(ActrNode { inner: Some(node) })
                },
            },
        }
    }
}

impl<N> ActrNode<N> {
    /// Whether the node's handle has moved on to a running actor.
    pub closed spec fn is_started(&self) -> bool {
        self.inner is None
    }

    /// The native node held while not started.
    pub closed spec fn node(&self) -> N {
        self.inner->Some_0
    }

    /// Moves the native node out to be started. Only the first call succeeds;
    /// every later one fails as already started.
    pub fn start(&mut self) -> (r: Result<N, BridgeError>)
        ensures
            start_post(*old(self), *final(self), r),
    {
        match self.inner.take() {
            None => Err(BridgeError::node_started()),
            Some(node) => Ok(node),
        }
    }
}

impl<R> ActrRef<R> {
    /// The running actor this handle forwards to.
    pub closed spec fn running(&self) -> R {
        self.inner
    }

    /// Wraps the native handle of a started actor.
    pub fn new(inner: R) -> (r: ActrRef<R>)
        ensures
            r.running() == inner,
    {
        ActrRef { inner }
    }

    /// The native handle of the running actor.
    pub fn runtime(&self) -> (r: &R)
        ensures
            *r == self.running(),
    {
        &self.inner
    }

    /// The host form of the candidates that discovery returned, in their order.
    pub fn discovered_from_native(ids: Vec<NativeActrId>) -> (r: Vec<ActrId>)
        ensures
            r@.len() == ids@.len(),
            forall|i: int| 0 <= i < ids@.len() ==> #[trigger] r@[i] == id_to_boundary(ids@[i]),
    {
        let mut out: Vec<ActrId> = Vec::new();
        let mut rest = ids;
        let ghost all = rest@;
        while rest.len() > 0
            invariant
                out@.len() + rest@.len() == all.len(),
                rest@ == all.subrange(out@.len() as int, all.len() as int),
                forall|i: int| 0 <= i < out@.len() ==> #[trigger] out@[i] == id_to_boundary(all[i]),
            decreases rest@.len(),
        {
            let id = rest.remove(0);
            proof {
                assert(id == all[out@.len() as int]);
            }
            out.push(ActrId::from_native(id));
            proof {
                assert(rest@ =~= all.subrange(out@.len() as int, all.len() as int));
            }
        }
        out
    }
}

/// The first `attach` on a system succeeds with a valid workload and leaves
/// the system consumed; a second `attach` on it then fails as already
/// consumed, whatever it is given, and yields no node.
pub proof fn lemma_attach_once<S, W, N>(
    s0: ActrSystem<S>,
    w1: Result<W, BridgeError>,
    s1: ActrSystem<S>,
    r1: Result<ActrNode<N>, BridgeError>,
    w2: Result<W, BridgeError>,
    s2: ActrSystem<S>,
    r2: Result<ActrNode<N>, BridgeError>,
)
    requires
        !s0.is_consumed(),
        w1 is Ok,
        attach_post(s0, w1, s1, r1),
        attach_post(s1, w2, s2, r2),
    ensures
        r1 is Ok,
        r2 is Err,
        is_system_consumed(r2->Err_0),
        s2.is_consumed(),
{
}

/// The first `start` on a node hands out its native node; a second `start`
/// on it then fails as already started.
pub proof fn lemma_start_once<N>(
    n0: ActrNode<N>,
    n1: ActrNode<N>,
    r1: Result<N, BridgeError>,
    n2: ActrNode<N>,
    r2: Result<N, BridgeError>,
)
    requires
        !n0.is_started(),
        start_post(n0, n1, r1),
        start_post(n1, n2, r2),
    ensures
        r1 is Ok,
        r1->Ok_0 == n0.node(),
        r2 is Err,
        is_node_started(r2->Err_0),
{
}

} // verus!
