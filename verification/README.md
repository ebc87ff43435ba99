# job_registry

A freelance marketplace's job registry, verified with Verus. Clients post jobs, freelancers
bid on them, a client accepts one bid, and the job moves on to its deliverable, a dispute or
its end. Beside it stand the badges and the score arithmetic of reputation profiles.

- `src/` is the library. Every request is a function on the ledger entries that it touches;
  its contract says for which reason it is refused, or what the ledger holds afterwards.
  `src/laws.rs` proves what holds of the registry as a whole. Over any number of requests,
  jobs that they are not about stay as they were, and nobody has two bids on a job. Where
  the administrator is not named for the first time after jobs were posted, which would
  start the numbers again, a job also keeps what it was posted with and its freelancer, and
  a closed job stays closed. Of two requests in a row it proves that a withdrawal undoes a
  bid and that acceptance ends the bidding.
- `src/host.rs` is the trusted part: the `soroban_sdk` byte strings and lists that the
  library keeps.
- `app/` is the Soroban contract around the library. It authenticates callers, loads and
  stores ledger entries, reads the clock and publishes events.
- `tests/` runs the library.
