# mentalist

An agent runtime: a planner proposes tasks, a parallel executor runs them
through sandboxed tools, a critic judges the results and the loop adapts.

- `src/` is the verified library (Verus). It holds the runtime's decisions
  and data structures with their contracts: command validation for the
  sandbox, prompt sanitisation, the task graph and its round-by-round
  scheduler, tool and executor registries, middleware ordering, recovery of
  tool calls written as text, the JSON-RPC exchange with Model Context
  Protocol servers, model-provider requests and stream events, skills, and
  the text statistics of the WebAssembly tool runner.
- `app/` is ordinary Rust around it: the asynchronous traits that models,
  planners, critics, tools and middlewares implement, process, container,
  WebAssembly, file and network I/O, and the loops that alternate that I/O
  with the library's decisions.
- `tests/` exercises the library from outside.
