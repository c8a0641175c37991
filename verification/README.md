# turn_lifecycle

The state of one conversation turn of an agent, verified with Verus, and the hooks that follow
the turn's plan and its tasks.

- `src/plan.rs`: plans, the operations that edit them, and what an update is reported as.
- `src/turn_state.rs`: the state of a turn: its plan, the requests that wait for an answer, the
  mailbox phase, the permissions that were granted.
- `src/waiters.rs`: the map in which requests wait.
- `src/active_turn.rs`: the tasks of the running turn.
- `src/hooks/`: what hooks are told, which of them are run, and how their runs are judged.
- `src/text.rs`: numerals and trimming, for messages.
- `src/outside.rs`: the outside types and functions that the library relies on, with the
  contracts that are taken on trust.
- `app/`: JSON, and the loop that runs the commands of hooks.

The laws of the library are the public proof functions whose documentation begins with "Law".
