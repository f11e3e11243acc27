# coderunner

A service that compiles code sent by its users and runs it against test data,
reporting each state that a task goes through.

The library under `src/` holds the service's logic, verified with Verus:

- `domain`: tasks, their states, limits, tests and results.
- `engine`: the testing pipeline: what compiling a task and running its tests
  do to the task, whatever order the runs finish in.
- `pipeline`, `compiler`, `runner`, `stubs`, `models`: the line-protocol
  service: its commands and answers, and the verdicts of the host compiler and
  runner.
- `native`: the commands, scope names, cgroup properties and verdicts of the
  executor that works in Linux namespaces under systemd.
- `grpc`: the wire models and the conversions between them and the domain,
  with the refusals of a request.
- `text`, `ident`, `clock`, `host`: text helpers, UUIDs, the wall clock and
  host paths.

`app/` holds what runs around it: the asynchronous stages, the sockets,
the processes and the system calls.
