use std::sync::Arc;

use router_core::query_planner::assembly::{
    AssemblyStep, BridgeQueryPlanner, PoolAssembly, QueryPlannerError, ServiceBuildError,
    TaskResult,
};
use router_core::query_planner::pool::{response, BridgeQueryPlannerPool, BUFFER_BOUND};
use router_core::services::poll::Poll;

type Assembly = PoolAssembly<u32, String, &'static str>;
type Finished = TaskResult<u32, String, &'static str, u8, &'static str, ()>;
type Step = AssemblyStep<u32, String, &'static str, u8, &'static str>;

fn built(planner: u32, schema: &str, service: &'static str) -> Finished {
    Ok(Ok(BridgeQueryPlanner {
        planner: Arc::new(planner),
        schema: Arc::new(schema.to_string()),
        service,
    }))
}

fn waiting(step: Step) -> Assembly {
    match step {
        AssemblyStep::Waiting(assembly) => assembly,
        _ => panic!("the assembly has ended"),
    }
}

fn begin(size: usize) -> Assembly {
    let (assembly, _) = Assembly::new("type Query".to_string(), Arc::new(7u8), size);
    assembly
}

#[test]
fn new_asks_for_planners_of_one_schema() {
    let (assembly, tasks) = Assembly::new("type Query".to_string(), Arc::new(7u8), 3);
    assert_eq!(assembly.pending(), 3);
    assert_eq!(tasks.len(), 3);
    for task in tasks {
        assert!(task.planner.is_none());
        assert_eq!(task.sdl, "type Query");
        assert_eq!(*task.configuration, 7);
    }
}

#[test]
fn new_from_planners_asks_for_one_planner_each() {
    let old = vec![Arc::new(10u32), Arc::new(20u32)];
    let (assembly, tasks) =
        Assembly::new_from_planners(old, "type Query".to_string(), Arc::new(7u8));
    assert_eq!(assembly.pending(), 2);
    let planners: Vec<u32> = tasks.iter().map(|t| **t.planner.as_ref().unwrap()).collect();
    assert_eq!(planners, vec![10, 20]);
    for task in tasks {
        assert_eq!(task.sdl, "type Query");
        assert_eq!(*task.configuration, 7);
    }
}

#[test]
fn pool_is_complete_with_the_last_task() {
    let assembly = waiting(begin(3).join_next(built(2, "second", "b")));
    assert_eq!(assembly.pending(), 2);
    let assembly = waiting(assembly.join_next(built(1, "first", "a")));
    assert_eq!(assembly.pending(), 1);
    let step: Step = assembly.join_next(built(3, "third", "c"));
    match step {
        AssemblyStep::Complete(parts) => {
            let planners: Vec<u32> = parts.planners.iter().map(|p| **p).collect();
            assert_eq!(planners, vec![2, 1, 3]);
            let services: Vec<&str> = parts.services.iter().map(|s| s.service).collect();
            assert_eq!(services, vec!["b", "a", "c"]);
            assert_eq!(*parts.schema, "second");
        }
        _ => panic!("the pool is not complete"),
    }
}

#[test]
fn pool_of_one_planner() {
    let step: Step = begin(1).join_next(built(4, "only", "x"));
    match step {
        AssemblyStep::Complete(parts) => {
            assert_eq!(parts.planners.len(), 1);
            assert_eq!(*parts.planners[0], 4);
            assert_eq!(*parts.schema, "only");
        }
        _ => panic!("the pool is not complete"),
    }
}

#[test]
fn task_that_does_not_end_fails_the_pool() {
    let assembly = waiting(begin(3).join_next(built(2, "second", "b")));
    let step: Step = assembly.join_next(Err::<_, ()>(()));
    match step {
        AssemblyStep::Failed(e) => assert!(matches!(
            e,
            ServiceBuildError::QueryPlannerError(QueryPlannerError::UnhandledPlannerResult)
        )),
        _ => panic!("the pool has not failed"),
    }
}

#[test]
fn error_of_a_build_fails_the_pool() {
    let failed: Finished = Ok(Err(ServiceBuildError::Other("invalid schema")));
    let step: Step = begin(2).join_next(failed);
    assert!(matches!(step, AssemblyStep::Failed(ServiceBuildError::Other("invalid schema"))));

    let failed: Finished =
        Ok(Err(ServiceBuildError::QueryPlannerError(QueryPlannerError::Planner(9))));
    let step: Step = begin(1).join_next(failed);
    assert!(matches!(
        step,
        AssemblyStep::Failed(ServiceBuildError::QueryPlannerError(QueryPlannerError::Planner(9)))
    ));
}

#[test]
fn pool_hands_out_its_parts() {
    let planners = vec![Arc::new(1u32), Arc::new(2u32)];
    let schema = Arc::new("schema".to_string());
    let pool = BridgeQueryPlannerPool::from_parts(planners.clone(), 0u8, schema.clone());
    let shared = pool.planners();
    assert_eq!(shared.len(), 2);
    assert!(Arc::ptr_eq(&shared[0], &planners[0]));
    assert!(Arc::ptr_eq(&shared[1], &planners[1]));
    assert!(Arc::ptr_eq(&pool.schema(), &schema));
}

/// A service that tells its clones from itself.
struct Generation(u32);

impl Clone for Generation {
    fn clone(&self) -> Generation {
        Generation(self.0 + 1)
    }
}

#[test]
fn call_uses_the_service_and_keeps_a_clone() {
    let planners: Vec<Arc<u32>> = vec![Arc::new(1)];
    let mut pool =
        BridgeQueryPlannerPool::from_parts(planners, Generation(0), Arc::new("s".to_string()));
    let first = pool.call("query");
    assert_eq!(first.service.0, 0);
    assert_eq!(first.request, "query");
    let second = pool.call("other");
    assert_eq!(second.service.0, 1);
    assert_eq!(second.request, "other");
    assert_eq!(pool.planners().len(), 1);
}

#[test]
fn pool_is_always_ready() {
    let planners: Vec<Arc<u32>> = vec![];
    let mut pool = BridgeQueryPlannerPool::from_parts(planners, (), Arc::new(()));
    let poll: Poll<Result<(), u8>> = pool.poll_ready();
    assert!(matches!(poll, Poll::Ready(Ok(()))));
    assert_eq!(BUFFER_BOUND, 10_000);
}

#[test]
fn responses() {
    let answered: Result<&str, Result<QueryPlannerError<u8>, &str>> = Ok("plan");
    assert!(matches!(response(answered), Ok("plan")));
    let planner: Result<&str, Result<QueryPlannerError<u8>, &str>> =
        Err(Ok(QueryPlannerError::Planner(3)));
    assert!(matches!(response(planner), Err(QueryPlannerError::Planner(3))));
    let other: Result<&str, Result<QueryPlannerError<u8>, &str>> = Err(Err("buffer closed"));
    assert!(matches!(response(other), Err(QueryPlannerError::UnhandledPlannerResult)));
}

#[test]
fn clones_share_planners_and_schema() {
    let planners = vec![Arc::new(1u32), Arc::new(2u32)];
    let schema = Arc::new("schema".to_string());
    let mut pool =
        BridgeQueryPlannerPool::from_parts(planners.clone(), Generation(0), schema.clone());
    let mut copy = pool.clone();
    pool.call("query");
    assert_eq!(copy.call("query").service.0, 1);
    let again = copy.clone();
    for shared in [pool.planners(), copy.planners(), again.planners()] {
        assert_eq!(shared.len(), 2);
        assert!(Arc::ptr_eq(&shared[0], &planners[0]));
        assert!(Arc::ptr_eq(&shared[1], &planners[1]));
    }
    assert!(Arc::ptr_eq(&again.schema(), &schema));
    pool.planners().clear();
    assert_eq!(pool.planners().len(), 2);
}

#[test]
fn pool_of_the_assembled_parts() {
    let assembly = waiting(begin(2).join_next(built(2, "second", "b")));
    let step: Step = assembly.join_next(built(1, "first", "a"));
    match step {
        AssemblyStep::Complete(parts) => {
            let pool = parts.into_pool(|services| {
                services.iter().map(|s| s.service).collect::<Vec<_>>().join("+")
            });
            let planners: Vec<u32> = pool.planners().iter().map(|p| **p).collect();
            assert_eq!(planners, vec![2, 1]);
            assert_eq!(*pool.schema(), "second");
            let mut pool = pool;
            assert_eq!(pool.call("query").service, "b+a");
        }
        _ => panic!("the pool is not complete"),
    }
}
