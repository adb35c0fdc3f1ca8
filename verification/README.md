# param_sync

The decision logic of a small parameter-server training system, verified
with Verus:

- `training_coordinator`: the coordinator's stage machine. Every report from
  a worker or a parameter server bumps a counter; stage conditions are then
  checked in turn (reports may arrive early), and the broadcasts to make are
  returned in order.
- `worker_proxy`, `param_server_proxy`: the compute-then-send rounds of the
  proxies, and the gathering of gradients with the "all received" signal.
- `worker`, `param_server`: which coordinator commands are passed on.
- `accumulator`: the per-cycle gradient store.
- `worker_pool`: a pool of workers shared behind locks.
- `protocol`: the wire texts of commands and reports.

`app/` runs the system on tokio channels; floating-point gradients, random
numbers and the clock stay there.
