# komo

The decision logic of a personal agent, verified with Verus, and the ordinary
Rust around it.

- `src/` holds what the agent decides: the permission policy, the governance of
  memories, reminders, tasks and pairings, cron schedules, the resolution of the
  configuration, the loop of a turn and its budget, the queues of the gateway,
  the review of sessions, the prompts, and the texts of the operator's commands.
  Each function states what it returns; what relates several of them is stated in
  public proof functions.
- `app/` reads arguments, files, the environment and the network, and performs
  what the library asks for. Stores, model clients and channels are reached
  through the traits in `app/ports.rs`.
- `tests/` runs the library on concrete values.

Paths and errors are plain strings in the library. Times are unix seconds, and
whatever depends on the clock, on chance or on the machine's zone is either
handed in as an argument or stated for every outcome.
