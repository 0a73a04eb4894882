# magma_virtio

Verified decision logic of the Magma virtio-gpu component.

- `src/capabilities.rs`: the capability set advertised to the guest.
- `src/seqno.rs`: publication of completed CPU sequence numbers (compare-and-exchange loop) and the waiters' predicate.
- `src/scheduler.rs`: the worker pool's channel queue with per-channel "scheduled" flags, and the worker count.
- `src/ring_service.rs`: one service run of a ring channel by a worker, as a state machine, and the per-command drain decision.
- `src/fence_waiter.rs`: the sync thread's pending fences and watched fences.

`app/` holds the threads, locks, atomics, OS events and ring memory that drive these
state machines. Each state machine takes the result of the action it last asked for
and returns the next action.
