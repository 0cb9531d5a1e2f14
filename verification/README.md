# router_core

The decision logic of a GraphQL router's plumbing, written in Verus.

- `src/cache`: a two level cache. `memory` is the bounded level in memory, on top of the
  least-recently-used cache of the `lru` crate (`binding` holds the contracts of its
  functions). `secondary` says what a second level is, and `storage` puts one behind memory;
  `insertion` holds the steps of a write to both, and `measurement` what is reported of a
  read. `model` says what a cache holds, as a list of entries ordered by their last use, and
  `laws` what holds of every sequence of reads and writes.
- `src/query_planner`: a pool of query planners. `assembly` collects the planners from the
  tasks that build them, `pool` hands requests to the finished pool.
- `src/services`: `supergraph_request` takes a request through its layers, and `translate`
  passes it on unchanged.
- `app`: the asynchronous side, which holds the locks, tasks and `tower` services and acts
  on what the library decides. Verus does not read it.

The library is synchronous. Where work has to be awaited, a function returns what is to be
done next (`Lookup`, `InsertStep`, `AssemblyStep`, `RequestStep`), and another one takes what came of it.

In memory, keys are strings and values are bytes.
