# download_manager

A download manager whose decisions are verified with Verus: queueing under a
concurrency limit, retries with exponential backoff, cooperative cancellation,
removal of partial files, progress and lifecycle events.

## Layout

- `src/` decides. It does no I/O: what has to be done comes back as data, and
  what came of it is handed in again.
  - `scheduler` keeps the queue. `Scheduler::turn` takes what happened and
    returns the effects to carry out and the downloads to start.
  - `worker` runs one attempt. `Attempt::step` takes the result of a step and
    returns the next one.
  - `manager` ties the shared state, the scheduler and the tokens together.
  - `backoff`, `config`, `context`, `request`, `download`, `events`, `backend`
    and `error` hold the rest of the rules.
  - `scheduler_laws`, `permit_laws`, `concurrency_laws`, `manager_laws` and
    `worker_laws` state and prove what holds of whole runs, however tasks and scheduler take turns:
    no more downloads hold a permit than the limit, no turn leaves a permit idle
    while a download waits, each download gets one outcome, cancelled downloads
    never start, retries stop at their limit, a partial file is removed, a manager
    that was shut down refuses requests and comes to rest. Of the semaphore the
    laws use what it promises of a single request, and of a token that it is
    cancelled with the token it was made from.
    Until a shutdown cuts a turn short, no download is lost.
  - `external` declares what is taken from other crates without a proof.
- `app/` acts: tasks, channels, timers, files and HTTP around the library.
- `tests/` runs the library with the real crates linked.
