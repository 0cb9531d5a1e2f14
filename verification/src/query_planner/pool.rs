//! A complete pool, which passes requests on to its planners.

use std::sync::Arc;
use vstd::prelude::*;

use crate::query_planner::assembly;
use crate::query_planner::assembly::BridgeQueryPlanner;
use crate::query_planner::assembly::PoolParts;
use crate::query_planner::assembly::QueryPlannerError;
use crate::services::poll::Poll;

verus! {

/// The number of requests that may wait for a planner of the pool at one time.
pub const BUFFER_BOUND: usize = 10_000;

/// A pool of query planners behind one service.
pub struct BridgeQueryPlannerPool<P, C, V> {
    planners: Vec<Arc<P>>,
    service: V,
    schema: Arc<C>,
}

/// What a [`BridgeQueryPlannerPool`] is at one moment.
#[verifier::ext_equal]
pub struct PoolState<P, C, V> {
    pub planners: Seq<Arc<P>>,
    pub service: V,
    pub schema: Arc<C>,
}

impl<P, C, V> View for BridgeQueryPlannerPool<P, C, V> {
    type V = PoolState<P, C, V>;

    closed spec fn view(&self) -> PoolState<P, C, V> {
        PoolState { planners: self.planners@, service: self.service, schema: self.schema }
    }
}

impl<P, C, V: Clone> PoolState<P, C, V> {
    /// `later` is this pool after a request, or a clone of it: the planners and the schema
    /// are the same, and the service is the same or a clone.
    pub open spec fn precedes(self, later: PoolState<P, C, V>) -> bool {
        &&& later.planners == self.planners
        &&& later.schema == self.schema
        &&& cloned::<V>(self.service, later.service)
    }
}

/// A clone of a pool shares its planners and its schema, and has a clone of its service.
impl<P, C, V: Clone> Clone for BridgeQueryPlannerPool<P, C, V> {
    fn clone(&self) -> (pool: BridgeQueryPlannerPool<P, C, V>)
        ensures
            self@.precedes(pool@),
    {
        BridgeQueryPlannerPool {
            planners: self.planners(),
            service: self.service.clone(),
            schema: Arc::clone(&self.schema),
        }
    }
}

/// One request on its way to a planner: the service that is to answer it, and the request.
pub struct PlannerCall<V, R> {
    pub service: V,
    pub request: R,
}

impl<P, C, S> PoolParts<P, C, S> {
    /// The pool of these parts. `build` makes one service of those of the planners.
    pub fn into_pool<V, F: FnOnce(Vec<BridgeQueryPlanner<P, C, S>>) -> V>(self, build: F) -> (pool:
        BridgeQueryPlannerPool<P, C, V>)
        requires
            self.wf(),
            call_requires(build, (self.services,)),
        ensures
            pool@.planners == assembly::planners_of(self.services@),
            pool@.planners.len() == self.services@.len(),
            forall|i: int|
                0 <= i < self.services@.len() ==> #[trigger] pool@.planners[i]
                    == self.services@[i].planner,
            pool@.schema == self.services@[0].schema,
            call_ensures(build, (self.services,), pool@.service),
    {
        let service = build(self.services);
        BridgeQueryPlannerPool::from_parts(self.planners, service, self.schema)
    }
}

impl<P, C, V> BridgeQueryPlannerPool<P, C, V> {
    /// A pool of these planners, whose requests all go to `service`.
    pub fn from_parts(planners: Vec<Arc<P>>, service: V, schema: Arc<C>) -> (pool:
        BridgeQueryPlannerPool<P, C, V>)
        ensures
            pool@ == (PoolState { planners: planners@, service, schema }),
    {
        BridgeQueryPlannerPool { planners, service, schema }
    }

    /// The planners of the pool, shared with it.
    pub fn planners(&self) -> (planners: Vec<Arc<P>>)
        ensures
            planners@ == self@.planners,
    {
        let mut planners: Vec<Arc<P>> = Vec::new();
        let mut i: usize = 0;
        while i < self.planners.len()
            invariant
                i <= self.planners@.len(),
                planners@ == self.planners@.take(i as int),
            decreases self.planners@.len() - i,
        {
            planners.push(Arc::clone(&self.planners[i]));
            i = i + 1;
        }
        planners
    }

    /// The schema of the planners, shared with the pool.
    pub fn schema(&self) -> (schema: Arc<C>)
        ensures
            schema == self@.schema,
    {
        Arc::clone(&self.schema)
    }

    /// The pool takes requests at any time: they wait behind it where its planners are busy.
    pub fn poll_ready<E>(&mut self) -> (poll: Poll<Result<(), E>>)
        ensures
            poll == Poll::Ready(Ok::<(), E>(())),
            *final(self) == *old(self),
    {
        Poll::Ready(Ok(()))
    }

    /// Sends a request on its way. The service that the pool had answers it, and a clone of
    /// that service takes its place.
    pub fn call<R>(&mut self, req: R) -> (call: PlannerCall<V, R>) where V: Clone
        ensures
            call.service == old(self)@.service,
            call.request == req,
            old(self)@.precedes(final(self)@),
    {
        let mut service = self.service.clone();
        core::mem::swap(&mut service, &mut self.service);
        PlannerCall { service, request: req }
    }
}

/// What a request to the pool is answered. The service behind the pool fails with an error
/// of any kind: `Err(Ok(e))` is one that is an error of a query planner, `Err(Err(other))`
/// one that is not.
pub fn response<A, D, B>(answer: Result<A, Result<QueryPlannerError<D>, B>>) -> (res: Result<
    A,
    QueryPlannerError<D>,
>)
    ensures
        res == (match answer {
            Ok(a) => Ok(a),
            Err(Ok(e)) => Err(e),
            Err(Err(_)) => Err(QueryPlannerError::UnhandledPlannerResult),
        }),
{
    match answer {
        Ok(a) => Ok(a),
        Err(Ok(e)) => Err(e),
        Err(Err(_)) => Err(QueryPlannerError::UnhandledPlannerResult),
    }
}

/// The planners and the schema of a pool are fixed when it is made: after any number of
/// requests and of clones of clones they are the same, the planners in the same order.
pub proof fn law_planners_are_fixed<P, C, V: Clone>(states: Seq<PoolState<P, C, V>>, n: int)
    requires
        0 <= n < states.len(),
        forall|i: int|
            #![trigger states[i]]
            0 <= i < states.len() - 1 ==> states[i].precedes(states[i + 1]),
    ensures
        states[n].planners == states[0].planners,
        states[n].schema == states[0].schema,
    decreases n,
{
    if n > 0 {
        law_planners_are_fixed(states, n - 1);
        assert(states[n - 1].precedes(states[n - 1 + 1]));
    }
}

/// A pool precedes another exactly where that one has the same planners in the same order,
/// the same schema, and the same service or a clone of it.
pub proof fn law_what_a_pool_passes_on<P, C, V: Clone>(
    before: PoolState<P, C, V>,
    later: PoolState<P, C, V>,
)
    ensures
        before.precedes(later) <==> {
            &&& later.planners.len() == before.planners.len()
            &&& forall|i: int|
                0 <= i < before.planners.len() ==> #[trigger] later.planners[i]
                    == before.planners[i]
            &&& later.schema == before.schema
            &&& cloned::<V>(before.service, later.service)
        },
{
    if later.planners.len() == before.planners.len() && forall|i: int|
        0 <= i < before.planners.len() ==> #[trigger] later.planners[i] == before.planners[i] {
        assert(later.planners =~= before.planners);
    }
}

/// A pool can be rebuilt with one planner for each that it had: the planners of a pool that
/// was assembled are as many as its services.
pub proof fn law_rebuilt_pool_has_the_same_size<P, C, S, V>(
    services: Seq<BridgeQueryPlanner<P, C, S>>,
    pool: PoolState<P, C, V>,
)
    requires
        pool.planners == assembly::planners_of(services),
    ensures
        pool.planners.len() == services.len(),
        assembly::AssemblyState::<P, C, S>::begun(pool.planners.len()).pending == services.len(),
{
}

} // verus!
