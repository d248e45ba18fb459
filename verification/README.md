# rcore_tasks

The decision-making core of a small RISC-V multiprogramming kernel, verified
with Verus: the round-robin task scheduler and its time accounting, the
decoding of traps and system calls, the loader's address arithmetic, the
batch system's application record, and the user library's side of the
system-call interface.

- `src/` is the verified library. Modules: `config` (constants), `timer`
  (instants and durations in microseconds), `task` (task status, context and
  control block), `tasks` (the task manager, its model and its laws),
  `trap` (decoding `scause`, trap decisions, the trap frame), `syscall`
  (system-call decoding and results), `loader` and `batch` (application
  placement and the batch record), `sbi` (SBI requests), `user` (how the user
  library encodes its calls, and `sleep`).
- `app/` is the kernel program around it: registers, SBI and `ecall`s, the
  context-switch routine, global state, the heap and the trap entry.
- `tests/` runs the library on concrete scenarios.
