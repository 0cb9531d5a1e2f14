//! The chain of layers that a supergraph request goes through before it is planned.

use std::sync::Arc;
use vstd::prelude::*;

use crate::services::poll::Poll;
use crate::services::translate::ServiceResult;

verus! {

/// The work of one layer on a request. They run in this order.
#[derive(Clone, Copy, Debug, PartialEq, Eq, Structural)]
pub enum Layer {
    /// The persisted query layer, which replaces the identifier of a persisted query by
    /// its text.
    PersistedQuery,
    /// The layer for automatic persisted queries.
    Apq,
    /// The layer that parses and validates the query.
    QueryAnalysis,
    /// The persisted query layer once more, on the query that was analyzed.
    PersistedQueryWithAnalyzedQuery,
}

/// What is to be done next with a request.
pub enum RequestStep<Request, Response> {
    /// The request goes to this layer, whose result goes to [`Layer::advance`].
    Run(Layer, Request),
    /// The request has come to its end.
    Done(ServiceResult<Request, Response>),
}

/// The layer after this one.
pub open spec fn next_layer(layer: Layer) -> Option<Layer> {
    match layer {
        Layer::PersistedQuery => Some(Layer::Apq),
        Layer::Apq => Some(Layer::QueryAnalysis),
        Layer::QueryAnalysis => Some(Layer::PersistedQueryWithAnalyzedQuery),
        Layer::PersistedQueryWithAnalyzedQuery => None,
    }
}

/// How many layers come after this one.
pub open spec fn layers_after(layer: Layer) -> nat {
    match layer {
        Layer::PersistedQuery => 3,
        Layer::Apq => 2,
        Layer::QueryAnalysis => 1,
        Layer::PersistedQueryWithAnalyzedQuery => 0,
    }
}

/// What follows the result of a layer: a response ends the request, and a request goes to
/// the next layer or, behind the last one, is handed on.
pub open spec fn step_after<Request, Response>(
    layer: Layer,
    result: ServiceResult<Request, Response>,
) -> RequestStep<Request, Response> {
    match (result, next_layer(layer)) {
        (Ok(request), Some(next)) => RequestStep::Run(next, request),
        _ => RequestStep::Done(result),
    }
}

/// The service that takes a supergraph request through its layers.
pub struct SupergraphRequestService<A, P, Q> {
    apq_layer: A,
    persisted_query_layer: Arc<P>,
    query_analysis_layer: Q,
}

/// The layers of one service.
pub struct Layers<A, P, Q> {
    pub apq_layer: A,
    pub persisted_query_layer: Arc<P>,
    pub query_analysis_layer: Q,
}

impl<A, P, Q> View for SupergraphRequestService<A, P, Q> {
    type V = Layers<A, P, Q>;

    closed spec fn view(&self) -> Layers<A, P, Q> {
        Layers {
            apq_layer: self.apq_layer,
            persisted_query_layer: self.persisted_query_layer,
            query_analysis_layer: self.query_analysis_layer,
        }
    }
}

impl<A: Clone, P, Q: Clone> Layers<A, P, Q> {
    /// `copy` has clones of these layers, and shares the persisted query layer.
    pub open spec fn cloned_to(self, copy: Layers<A, P, Q>) -> bool {
        &&& cloned::<A>(self.apq_layer, copy.apq_layer)
        &&& copy.persisted_query_layer == self.persisted_query_layer
        &&& cloned::<Q>(self.query_analysis_layer, copy.query_analysis_layer)
    }
}

impl<A: Clone, P, Q: Clone> Clone for SupergraphRequestService<A, P, Q> {
    fn clone(&self) -> (service: SupergraphRequestService<A, P, Q>)
        ensures
            self@.cloned_to(service@),
    {
        SupergraphRequestService {
            apq_layer: self.apq_layer.clone(),
            persisted_query_layer: Arc::clone(&self.persisted_query_layer),
            query_analysis_layer: self.query_analysis_layer.clone(),
        }
    }
}

impl<A, P, Q> SupergraphRequestService<A, P, Q> {
    /// A service with these layers.
    pub fn new(
        apq_layer: A,
        persisted_query_layer: Arc<P>,
        query_analysis_layer: Q,
    ) -> (service: SupergraphRequestService<A, P, Q>)
        ensures
            service@ == (Layers { apq_layer, persisted_query_layer, query_analysis_layer }),
    {
        SupergraphRequestService { apq_layer, persisted_query_layer, query_analysis_layer }
    }

    /// The service is always ready.
    pub fn poll_ready<Response>(&mut self) -> (poll: Poll<Result<(), Response>>)
        ensures
            poll == Poll::Ready(Ok::<(), Response>(())),
            *final(self) == *old(self),
    {
        Poll::Ready(Ok(()))
    }

    /// Begins a request: it has clones of the layers to itself, and goes to the persisted
    /// query layer first.
    pub fn call<Request, Response>(&mut self, req: Request) -> (started: (
        Layers<A, P, Q>,
        RequestStep<Request, Response>,
    )) where A: Clone, Q: Clone
        ensures
            *final(self) == *old(self),
            old(self)@.cloned_to(started.0),
            started.1 == RequestStep::<Request, Response>::Run(Layer::PersistedQuery, req),
    {
        let layers = Layers {
            apq_layer: self.apq_layer.clone(),
            persisted_query_layer: Arc::clone(&self.persisted_query_layer),
            query_analysis_layer: self.query_analysis_layer.clone(),
        };
        (layers, RequestStep::Run(Layer::PersistedQuery, req))
    }
}

impl Layer {
    /// Takes the result of this layer, and says what is to be done next.
    pub fn advance<Request, Response>(self, result: ServiceResult<Request, Response>) -> (step:
        RequestStep<Request, Response>)
        ensures
            step == step_after(self, result),
    {
        match result {
            Err(response) => RequestStep::Done(Err(response)),
            Ok(request) => match self {
                Layer::PersistedQuery => RequestStep::Run(Layer::Apq, request),
                Layer::Apq => RequestStep::Run(Layer::QueryAnalysis, request),
                Layer::QueryAnalysis => RequestStep::Run(
                    Layer::PersistedQueryWithAnalyzedQuery,
                    request,
                ),
                Layer::PersistedQueryWithAnalyzedQuery => RequestStep::Done(Ok(request)),
            },
        }
    }
}

/// What comes of a request from `layer` on, where `run` says what each layer makes of a
/// request.
pub open spec fn drive<Request, Response>(
    layer: Layer,
    request: Request,
    run: spec_fn(Layer, Request) -> ServiceResult<Request, Response>,
) -> ServiceResult<Request, Response>
    decreases layers_after(layer),
{
    match step_after(layer, run(layer, request)) {
        RequestStep::Run(next, request) => {
            drive(next, request, run)
        },
        RequestStep::Done(result) => result,
    }
}

/// The result of one layer, and where it was a request what the next layer makes of it.
pub open spec fn then_run<Request, Response>(
    result: ServiceResult<Request, Response>,
    layer: Layer,
    run: spec_fn(Layer, Request) -> ServiceResult<Request, Response>,
) -> ServiceResult<Request, Response> {
    match result {
        Ok(request) => run(layer, request),
        Err(response) => Err(response),
    }
}

/// A request goes through the persisted query layer, the layer for automatic persisted
/// queries, query analysis and the persisted query layer again, in this order; the first
/// response on the way ends it and is its result.
pub proof fn law_layers_run_in_order<Request, Response>(
    request: Request,
    run: spec_fn(Layer, Request) -> ServiceResult<Request, Response>,
)
    ensures
        drive(Layer::PersistedQuery, request, run) == then_run(
            then_run(
                then_run(run(Layer::PersistedQuery, request), Layer::Apq, run),
                Layer::QueryAnalysis,
                run,
            ),
            Layer::PersistedQueryWithAnalyzedQuery,
            run,
        ),
{
    reveal_with_fuel(drive, 5);
}

/// Once a layer has responded no later layer sees the request: what they would have made of
/// it makes no difference.
pub proof fn law_response_ends_request<Request, Response>(
    layer: Layer,
    request: Request,
    response: Response,
    run: spec_fn(Layer, Request) -> ServiceResult<Request, Response>,
)
    requires
        run(layer, request) == Err::<Request, Response>(response),
    ensures
        drive(layer, request, run) == Err::<Request, Response>(response),
{
}

/// A response of any layer ends the request with that response.
pub proof fn law_response_is_the_result<Request, Response>(layer: Layer, response: Response)
    ensures
        ({
            let result: ServiceResult<Request, Response> = Err(response);
            let step = step_after(layer, result);
            &&& step is Done
            &&& step->Done_0 is Err
            &&& step->Done_0->Err_0 == response
        }),
{
}

/// A request that a layer passes on goes unchanged to the layer behind it: from the persisted
/// query layer to automatic persisted queries, to query analysis, and to the persisted query
/// layer again, which hands it out.
pub proof fn law_request_goes_to_the_next_layer<Request, Response>(request: Request)
    ensures
        ({
            let passed: ServiceResult<Request, Response> = Ok(request);
            let first = step_after(Layer::PersistedQuery, passed);
            let second = step_after(Layer::Apq, passed);
            let third = step_after(Layer::QueryAnalysis, passed);
            let last = step_after(Layer::PersistedQueryWithAnalyzedQuery, passed);
            &&& first is Run && first->Run_0 == Layer::Apq && first->Run_1 == request
            &&& second is Run && second->Run_0 == Layer::QueryAnalysis && second->Run_1 == request
            &&& third is Run && third->Run_0 == Layer::PersistedQueryWithAnalyzedQuery
                && third->Run_1 == request
            &&& last is Done && last->Done_0 is Ok && last->Done_0->Ok_0 == request
        }),
{
}

/// The layers that a request has to itself are clones of those of the service, but for the
/// persisted query layer, which is shared.
pub proof fn law_cloned_layers<A: Clone, P, Q: Clone>(
    layers: Layers<A, P, Q>,
    copy: Layers<A, P, Q>,
)
    ensures
        layers.cloned_to(copy) <==> {
            &&& cloned::<A>(layers.apq_layer, copy.apq_layer)
            &&& cloned::<Q>(layers.query_analysis_layer, copy.query_analysis_layer)
            &&& layers.persisted_query_layer == copy.persisted_query_layer
        },
{
}

} // verus!
