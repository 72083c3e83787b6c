# sdi

Scenario-driven implementation: plans, requirements, Given/When/Then
scenarios, rounds, tasks, decisions, autonomy policies and collaboration
patterns, and the `sdi` command line that drives them through a local daemon.

- `src/` is the library, written in Verus and verified: the domain model and
  its rules (`autonomy_policy`, `decision`, `pattern`, `task`, `requirement`,
  `scenario`, `ssot`, …), the request paths and argument rules of the command
  line (`cli`, `commands::*`), the grouping of decisions by proposal
  (`commands::consensus`), the pattern tree (`commands::pattern`), the
  daemon's lifecycle files and the
  decisions of its start and stop (`daemon`), the doctor report (`doctor`) and the
  HTTP error text (`http`). `lexical` holds the string order both sort by.
- `tests/` runs the library on concrete values.
- `app/` is the `sdi` binary: argument parsing, HTTP, files, the daemon
  process and printing, around the library.
