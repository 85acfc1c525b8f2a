# dragonos

Verified logic of three kernel subsystems, written in Verus.

- `process::xol`, `process::xol_protocol`: the state of a task that executes an
  instruction out of line, and what every nesting of exceptions keeps of it.
- `process::uret`, `process::frames`: the chain of hijacked function returns of
  a task, and the stack that holds it.
- `process::pcb`: the part of a process control block that the rest reads.
- `tty::job_control`: sessions and foreground process groups of a terminal.
- `procfs`: files, symbolic links and lazily filled directories of `/proc`, and
  the directory of a process.

States are changed through `&mut`. `app/` holds them behind locks and runs
job-control requests against a `Machine`, the trait by which a kernel gives
access to user memory and to its process table. Its `main` is a small program
that blocks on a pipe.
