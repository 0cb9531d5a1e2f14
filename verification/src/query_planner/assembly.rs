//! The assembly of a pool: the planners are built side by side, by tasks that finish in
//! any order, and the pool is ready when the last of them has succeeded.

use std::sync::Arc;
use vstd::prelude::*;

verus! {

/// Why a query planner could not do its work.
#[derive(Debug)]
pub enum QueryPlannerError<D> {
    /// The planner's result could not be understood, or it went away without one.
    UnhandledPlannerResult,
    /// Any other error of a planner.
    Planner(D),
}

/// Why a service could not be built.
#[derive(Debug)]
pub enum ServiceBuildError<D, O> {
    /// The query planner failed.
    QueryPlannerError(QueryPlannerError<D>),
    /// Any other error while the service was built.
    Other(O),
}

/// A query planner that was built: the planner itself, the schema that it was built for,
/// and the service that answers requests with it.
pub struct BridgeQueryPlanner<P, C, S> {
    pub planner: Arc<P>,
    pub schema: Arc<C>,
    pub service: S,
}

/// One planner to build. With `planner` the new planner is built from that older one,
/// else from nothing.
pub struct BuildTask<P, G> {
    pub planner: Option<Arc<P>>,
    pub sdl: String,
    pub configuration: Arc<G>,
}

/// What a finished task brings: the outer error says that the task itself did not run to
/// its end, the inner result is what the build returned.
pub type TaskResult<P, C, S, D, O, J> = Result<
    Result<BridgeQueryPlanner<P, C, S>, ServiceBuildError<D, O>>,
    J,
>;

/// What a finished task means for the pool: a task that did not run to its end counts as
/// a planner without a usable result.
pub open spec fn task_outcome<P, C, S, D, O, J>(result: TaskResult<P, C, S, D, O, J>) -> Result<
    BridgeQueryPlanner<P, C, S>,
    ServiceBuildError<D, O>,
> {
    match result {
        Ok(built) => built,
        Err(_) => Err(
            ServiceBuildError::QueryPlannerError(QueryPlannerError::UnhandledPlannerResult),
        ),
    }
}

/// The planners of the services, in the same order.
pub open spec fn planners_of<P, C, S>(services: Seq<BridgeQueryPlanner<P, C, S>>) -> Seq<Arc<P>> {
    services.map_values(|service: BridgeQueryPlanner<P, C, S>| service.planner)
}

/// What a [`PoolAssembly`] is at one moment: how many tasks are still to finish, and what
/// was built, in the order in which the tasks finished.
#[verifier::ext_equal]
pub struct AssemblyState<P, C, S> {
    pub pending: nat,
    pub services: Seq<BridgeQueryPlanner<P, C, S>>,
}

/// The mathematical value of an [`AssemblyStep`].
pub enum AssemblyOutcome<P, C, S, D, O> {
    Waiting(AssemblyState<P, C, S>),
    Complete(Seq<BridgeQueryPlanner<P, C, S>>),
    Failed(ServiceBuildError<D, O>),
}

impl<P, C, S> AssemblyState<P, C, S> {
    /// An assembly of `size` planners of which none is built yet.
    pub open spec fn begun(size: nat) -> AssemblyState<P, C, S> {
        AssemblyState { pending: size, services: Seq::empty() }
    }

    /// The assembly after one more task finished.
    pub open spec fn joined<D, O, J>(self, result: TaskResult<P, C, S, D, O, J>) -> AssemblyOutcome<
        P,
        C,
        S,
        D,
        O,
    > {
        match task_outcome(result) {
            Err(e) => AssemblyOutcome::Failed(e),
            Ok(service) => {
                let services = self.services.push(service);
                if self.pending <= 1 {
                    AssemblyOutcome::Complete(services)
                } else {
                    AssemblyOutcome::Waiting(
                        AssemblyState { pending: (self.pending - 1) as nat, services },
                    )
                }
            },
        }
    }
}

/// A pool whose planners are being built.
pub struct PoolAssembly<P, C, S> {
    pending: usize,
    services: Vec<BridgeQueryPlanner<P, C, S>>,
    planners: Vec<Arc<P>>,
}

/// The planners of a complete pool, the services that answer with them, in the same order,
/// and the schema that they share.
pub struct PoolParts<P, C, S> {
    pub planners: Vec<Arc<P>>,
    pub services: Vec<BridgeQueryPlanner<P, C, S>>,
    pub schema: Arc<C>,
}

impl<P, C, S> PoolParts<P, C, S> {
    /// There is at least one service, the planners are those of the services, and the schema
    /// is that of the service whose task finished first.
    pub open spec fn wf(&self) -> bool {
        &&& self.services@.len() > 0
        &&& self.planners@ == planners_of(self.services@)
        &&& self.schema == self.services@[0].schema
    }
}

/// Where the assembly stands after a task finished.
pub enum AssemblyStep<P, C, S, D, O> {
    /// Other tasks are still to finish.
    Waiting(PoolAssembly<P, C, S>),
    /// That was the last task, and all of them succeeded.
    Complete(PoolParts<P, C, S>),
    /// The task failed, and with it the pool: the other tasks are not waited for.
    Failed(ServiceBuildError<D, O>),
}

impl<P, C, S, D, O> AssemblyStep<P, C, S, D, O> {
    pub open spec fn wf(&self) -> bool {
        match self {
            AssemblyStep::Waiting(assembly) => assembly.wf(),
            AssemblyStep::Complete(parts) => parts.wf(),
            AssemblyStep::Failed(_) => true,
        }
    }
}

impl<P, C, S, D, O> View for AssemblyStep<P, C, S, D, O> {
    type V = AssemblyOutcome<P, C, S, D, O>;

    open spec fn view(&self) -> AssemblyOutcome<P, C, S, D, O> {
        match self {
            AssemblyStep::Waiting(assembly) => AssemblyOutcome::Waiting(assembly@),
            AssemblyStep::Complete(parts) => AssemblyOutcome::Complete(parts.services@),
            AssemblyStep::Failed(e) => AssemblyOutcome::Failed(*e),
        }
    }
}

impl<P, C, S> View for PoolAssembly<P, C, S> {
    type V = AssemblyState<P, C, S>;

    closed spec fn view(&self) -> AssemblyState<P, C, S> {
        AssemblyState { pending: self.pending as nat, services: self.services@ }
    }
}

impl<P, C, S> PoolAssembly<P, C, S> {
    /// Some task is still to finish, and the planners are those of the services built so far.
    pub closed spec fn wf(&self) -> bool {
        &&& self.pending > 0
        &&& self.planners@ == planners_of(self.services@)
    }

    /// Begins a pool of `size` planners, all for the same schema and configuration. Returns
    /// the tasks that build them.
    pub fn new<G>(sdl: String, configuration: Arc<G>, size: usize) -> (started: (
        PoolAssembly<P, C, S>,
        Vec<BuildTask<P, G>>,
    ))
        requires
            size > 0,
        ensures
            started.0.wf(),
            started.0@ == AssemblyState::<P, C, S>::begun(size as nat),
            started.1@.len() == size,
            forall|i: int|
                #![trigger started.1@[i]]
                0 <= i < size ==> {
                    &&& started.1@[i].planner is None
                    &&& started.1@[i].sdl@ == sdl@
                    &&& started.1@[i].configuration == configuration
                },
    {
        let mut tasks: Vec<BuildTask<P, G>> = Vec::new();
        let mut i: usize = 0;
        while i < size
            invariant
                i <= size,
                tasks@.len() == i,
                forall|j: int|
                    #![trigger tasks@[j]]
                    0 <= j < i ==> {
                        &&& tasks@[j].planner is None
                        &&& tasks@[j].sdl@ == sdl@
                        &&& tasks@[j].configuration == configuration
                    },
            decreases size - i,
        {
            tasks.push(
                BuildTask {
                    planner: None,
                    sdl: sdl.clone(),
                    configuration: Arc::clone(&configuration),
                },
            );
            i = i + 1;
        }
        (PoolAssembly::with_pending(size), tasks)
    }

    /// Begins a pool with one planner in place of each of the older ones. Returns the tasks
    /// that build them, in the order of the older planners.
    pub fn new_from_planners<G>(
        old_planners: Vec<Arc<P>>,
        schema: String,
        configuration: Arc<G>,
    ) -> (started: (PoolAssembly<P, C, S>, Vec<BuildTask<P, G>>))
        requires
            old_planners@.len() > 0,
        ensures
            started.0.wf(),
            started.0@ == AssemblyState::<P, C, S>::begun(old_planners@.len()),
            started.1@.len() == old_planners@.len(),
            forall|i: int|
                #![trigger started.1@[i]]
                0 <= i < old_planners@.len() ==> {
                    &&& started.1@[i].planner == Some(old_planners@[i])
                    &&& started.1@[i].sdl@ == schema@
                    &&& started.1@[i].configuration == configuration
                },
    {
        let size: usize = old_planners.len();
        let mut tasks: Vec<BuildTask<P, G>> = Vec::new();
        let mut i: usize = 0;
        while i < size
            invariant
                i <= size,
                size == old_planners@.len(),
                tasks@.len() == i,
                forall|j: int|
                    #![trigger tasks@[j]]
                    0 <= j < i ==> {
                        &&& tasks@[j].planner == Some(old_planners@[j])
                        &&& tasks@[j].sdl@ == schema@
                        &&& tasks@[j].configuration == configuration
                    },
            decreases size - i,
        {
            tasks.push(
                BuildTask {
                    planner: Some(Arc::clone(&old_planners[i])),
                    sdl: schema.clone(),
                    configuration: Arc::clone(&configuration),
                },
            );
            i = i + 1;
        }
        (PoolAssembly::with_pending(size), tasks)
    }

    fn with_pending(pending: usize) -> (assembly: PoolAssembly<P, C, S>)
        requires
            pending > 0,
        ensures
            assembly.wf(),
            assembly@ == AssemblyState::<P, C, S>::begun(pending as nat),
    {
        let assembly = PoolAssembly { pending, services: Vec::new(), planners: Vec::new() };
        assert(assembly.planners@ =~= planners_of(assembly.services@));
        assembly
    }

    /// The number of tasks that are still to finish.
    pub fn pending(&self) -> (pending: usize)
        ensures
            pending == self@.pending,
            self.wf() ==> pending > 0,
    {
        self.pending
    }

    /// Takes the result of the next task that finished.
    pub fn join_next<D, O, J>(self, result: TaskResult<P, C, S, D, O, J>) -> (step: AssemblyStep<
        P,
        C,
        S,
        D,
        O,
    >)
        requires
            self.wf(),
        ensures
            step.wf(),
            step@ == self@.joined(result),
            step matches AssemblyStep::Complete(parts) ==> {
                &&& parts.services@.len() == self@.services.len() + 1
                &&& parts.planners@.len() == parts.services@.len()
                &&& forall|i: int|
                    0 <= i < parts.services@.len() ==> #[trigger] parts.planners@[i]
                        == parts.services@[i].planner
                &&& parts.schema == parts.services@[0].schema
            },
    {
        let built = match result {
            Ok(built) => built,
            Err(_) => Err(
                ServiceBuildError::QueryPlannerError(QueryPlannerError::UnhandledPlannerResult),
            ),
        };
        let service = match built {
            Ok(service) => service,
            Err(e) => {
                return AssemblyStep::Failed(e);
            },
        };
        let mut services = self.services;
        let mut planners = self.planners;
        planners.push(Arc::clone(&service.planner));
        services.push(service);
        assert(planners@ =~= planners_of(services@));
        if self.pending > 1 {
            AssemblyStep::Waiting(PoolAssembly { pending: self.pending - 1, services, planners })
        } else {
            let schema = Arc::clone(&services[0].schema);
            AssemblyStep::Complete(PoolParts { planners, services, schema })
        }
    }
}

/// What becomes of an assembly when tasks finish with these results, in this order. What
/// comes after the end of the assembly is not looked at.
pub open spec fn drive<P, C, S, D, O, J>(
    state: AssemblyState<P, C, S>,
    results: Seq<TaskResult<P, C, S, D, O, J>>,
) -> AssemblyOutcome<P, C, S, D, O>
    decreases results.len(),
{
    if results.len() == 0 {
        AssemblyOutcome::Waiting(state)
    } else {
        match state.joined(results.first()) {
            AssemblyOutcome::Waiting(next) => drive(next, results.drop_first()),
            done => done,
        }
    }
}

/// A pool whose tasks all succeed is complete with the last of them, and holds what they
/// built in the order in which they finished.
pub proof fn law_all_tasks_succeed<P, C, S, D, O, J>(
    state: AssemblyState<P, C, S>,
    results: Seq<TaskResult<P, C, S, D, O, J>>,
    built: Seq<BridgeQueryPlanner<P, C, S>>,
)
    requires
        state.pending > 0,
        results.len() == state.pending,
        built.len() == results.len(),
        forall|i: int|
            0 <= i < results.len() ==> task_outcome(#[trigger] results[i]) == Ok::<
                BridgeQueryPlanner<P, C, S>,
                ServiceBuildError<D, O>,
            >(built[i]),
    ensures
        drive(state, results) == AssemblyOutcome::<P, C, S, D, O>::Complete(
            state.services + built,
        ),
    decreases results.len(),
{
    assert(results.first() == results[0]);
    if state.pending > 1 {
        let next = AssemblyState {
            pending: (state.pending - 1) as nat,
            services: state.services.push(built[0]),
        };
        law_all_tasks_succeed(next, results.drop_first(), built.drop_first());
        assert(next.services + built.drop_first() =~= state.services + built);
    } else {
        assert(state.services.push(built[0]) =~= state.services + built);
    }
}

/// The first task that fails, in the order in which they finish, decides the error of the
/// pool, whatever the tasks after it bring.
pub proof fn law_first_failure_decides<P, C, S, D, O, J>(
    state: AssemblyState<P, C, S>,
    results: Seq<TaskResult<P, C, S, D, O, J>>,
    failed: int,
    error: ServiceBuildError<D, O>,
)
    requires
        0 <= failed < results.len(),
        failed < state.pending,
        forall|i: int| 0 <= i < failed ==> task_outcome(#[trigger] results[i]) is Ok,
        task_outcome(results[failed]) == Err::<BridgeQueryPlanner<P, C, S>, _>(error),
    ensures
        drive(state, results) == AssemblyOutcome::<P, C, S, D, O>::Failed(error),
    decreases failed,
{
    assert(results.first() == results[0]);
    if failed > 0 {
        let next = AssemblyState {
            pending: (state.pending - 1) as nat,
            services: state.services.push(task_outcome(results[0])->Ok_0),
        };
        law_first_failure_decides(next, results.drop_first(), failed - 1, error);
    }
}

/// While fewer tasks have finished than were begun and none of them failed, the pool waits.
pub proof fn law_waits_for_every_task<P, C, S, D, O, J>(
    state: AssemblyState<P, C, S>,
    results: Seq<TaskResult<P, C, S, D, O, J>>,
)
    requires
        results.len() < state.pending,
        forall|i: int| 0 <= i < results.len() ==> task_outcome(#[trigger] results[i]) is Ok,
    ensures
        drive(state, results) is Waiting,
        drive(state, results)->Waiting_0.pending == state.pending - results.len(),
        drive(state, results)->Waiting_0.services.len() == state.services.len() + results.len(),
    decreases results.len(),
{
    if results.len() > 0 {
        assert(results.first() == results[0]);
        let next = AssemblyState {
            pending: (state.pending - 1) as nat,
            services: state.services.push(task_outcome(results[0])->Ok_0),
        };
        law_waits_for_every_task(next, results.drop_first());
    }
}

/// The planners of the services are one for each of them, in the same order.
pub proof fn law_one_planner_for_each_service<P, C, S>(
    services: Seq<BridgeQueryPlanner<P, C, S>>,
)
    ensures
        planners_of(services).len() == services.len(),
        forall|i: int|
            0 <= i < services.len() ==> #[trigger] planners_of(services)[i] == services[i].planner,
{
}

/// Complete parts have at least one service, a planner for each service in the same order,
/// and the schema of the first of them.
pub proof fn law_complete_parts<P, C, S, D, O>(step: AssemblyStep<P, C, S, D, O>)
    requires
        step.wf(),
        step is Complete,
    ensures
        step->Complete_0.services@.len() >= 1,
        step->Complete_0.planners@.len() == step->Complete_0.services@.len(),
        forall|i: int|
            0 <= i < step->Complete_0.services@.len() ==> #[trigger] step->Complete_0.planners@[i]
                == step->Complete_0.services@[i].planner,
        step->Complete_0.schema == step->Complete_0.services@[0].schema,
{
    law_one_planner_for_each_service(step->Complete_0.services@);
}

/// A pool that is begun waits for as many tasks as it has planners to build, and has built
/// none of them.
pub proof fn law_begun_pool_waits_for_all<P, C, S>(size: nat)
    ensures
        AssemblyState::<P, C, S>::begun(size).pending == size,
        AssemblyState::<P, C, S>::begun(size).services.len() == 0,
{
}

/// What a finished task means: what was built, the error of the build, or, where the task
/// did not run to its end, a planner result that could not be handled.
pub proof fn law_task_outcomes<P, C, S, D, O, J>(result: TaskResult<P, C, S, D, O, J>)
    ensures
        result is Ok ==> task_outcome(result) == result->Ok_0,
        result is Err ==> {
            &&& task_outcome(result) is Err
            &&& task_outcome(result)->Err_0 is QueryPlannerError
            &&& task_outcome(result)->Err_0->QueryPlannerError_0 is UnhandledPlannerResult
        },
{
}

/// A task that built a planner adds it behind those that are there. The pool is complete
/// with it exactly where it was the last task that was waited for, and else waits for one
/// task less.
pub proof fn law_built_planner_is_added<P, C, S, D, O, J>(
    state: AssemblyState<P, C, S>,
    service: BridgeQueryPlanner<P, C, S>,
)
    requires
        state.pending > 0,
    ensures
        ({
            let result: TaskResult<P, C, S, D, O, J> = Ok(Ok(service));
            let outcome = state.joined(result);
            &&& state.pending == 1 ==> {
                &&& outcome is Complete
                &&& outcome->Complete_0.len() == state.services.len() + 1
                &&& outcome->Complete_0.drop_last() == state.services
                &&& outcome->Complete_0.last() == service
            }
            &&& state.pending > 1 ==> {
                &&& outcome is Waiting
                &&& outcome->Waiting_0.pending + 1 == state.pending
                &&& outcome->Waiting_0.services.len() == state.services.len() + 1
                &&& outcome->Waiting_0.services.drop_last() == state.services
                &&& outcome->Waiting_0.services.last() == service
            }
        }),
{
    assert(state.services.push(service).drop_last() =~= state.services);
}

/// A task that failed to build a planner, or did not run to its end, fails the pool at once,
/// however many tasks it waits for.
pub proof fn law_failed_task_fails_the_pool<P, C, S, D, O, J>(
    state: AssemblyState<P, C, S>,
    error: ServiceBuildError<D, O>,
    join_error: J,
)
    ensures
        ({
            let failed: TaskResult<P, C, S, D, O, J> = Ok(Err(error));
            let outcome = state.joined(failed);
            outcome is Failed && outcome->Failed_0 == error
        }),
        ({
            let lost: TaskResult<P, C, S, D, O, J> = Err(join_error);
            let outcome = state.joined(lost);
            &&& outcome is Failed
            &&& outcome->Failed_0 is QueryPlannerError
            &&& outcome->Failed_0->QueryPlannerError_0 is UnhandledPlannerResult
        }),
{
}

/// A pool of `size` planners whose tasks all succeed holds what all of them built, `size`
/// services in the order in which they finished, and was not complete before the last.
pub proof fn law_pool_of_size_holds_size_planners<P, C, S, D, O, J>(
    size: nat,
    results: Seq<TaskResult<P, C, S, D, O, J>>,
    built: Seq<BridgeQueryPlanner<P, C, S>>,
)
    requires
        size > 0,
        results.len() == size,
        built.len() == size,
        forall|i: int|
            0 <= i < size ==> #[trigger] results[i] == Ok::<
                Result<BridgeQueryPlanner<P, C, S>, ServiceBuildError<D, O>>,
                J,
            >(Ok(built[i])),
    ensures
        drive(AssemblyState::<P, C, S>::begun(size), results) == AssemblyOutcome::<
            P,
            C,
            S,
            D,
            O,
        >::Complete(built),
        planners_of(built).len() == size,
        forall|n: int|
            0 <= n < size ==> drive(
                AssemblyState::<P, C, S>::begun(size),
                #[trigger] results.take(n),
            ) is Waiting,
{
    let start = AssemblyState::<P, C, S>::begun(size);
    law_all_tasks_succeed(start, results, built);
    assert(start.services + built =~= built);
    assert forall|n: int| 0 <= n < size implies drive(start, #[trigger] results.take(n)) is Waiting by {
        assert forall|i: int| 0 <= i < results.take(n).len() implies task_outcome(
            #[trigger] results.take(n)[i],
        ) is Ok by {
            assert(results.take(n)[i] == results[i]);
        }
        law_waits_for_every_task(start, results.take(n));
    }
}

/// A step stands for its own variant: an assembly that waits for what it is, complete parts
/// for their services in order, and a failure for its error.
pub proof fn law_step_shows_what_it_holds<P, C, S, D, O>(step: AssemblyStep<P, C, S, D, O>)
    ensures
        match step {
            AssemblyStep::Waiting(assembly) => step@ is Waiting && step@->Waiting_0 == assembly@,
            AssemblyStep::Complete(parts) => step@ is Complete && step@->Complete_0
                == parts.services@,
            AssemblyStep::Failed(e) => step@ is Failed && step@->Failed_0 == e,
        },
{
}

} // verus!
