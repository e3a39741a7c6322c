# scaleway_operator

A Kubernetes operator that manages Scaleway instances and load balancers
through the `Instance`, `LoadBalancer` and `NamespaceRole` custom resources.

- `src/` is the library, verified with Verus: the error model and its
  sanitized status messages, the circuit breaker and retry backoff, the
  Scaleway endpoints, request bodies and response handling, the reconcile
  decisions, finalizer lists and statuses, and the reconciliation of each
  resource as a state machine whose I/O is left to the caller
  (`instance_flow`, `lb_flow`). `src/laws.rs` states and proves the
  properties that span several functions.
- `app/` is the operator process: the controllers, the Kubernetes and HTTP
  calls that the state machines ask for, Prometheus metrics and the health
  server.
- `tests/` exercises the library on concrete values.
