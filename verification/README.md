# agentscommander

The command-line side of AgentsCommander, as a verified library: the rules
the CLI verbs apply to what they read (arguments, JSON replies, role files,
stored run artifacts) and the messages, records and verdicts they produce,
written in Verus with their contracts proved. Reading and writing files,
settings, sessions and processes is left to the caller; the checks that rest
on the application's own configuration code (naming rules, team routing)
take that code's answers as inputs.

Layout:

- `src/` — the library, one module per verb (`send`, `list_peers`,
  `role_experiment`, `harness`, `coding_agent`, `close_session`, ...) plus
  shared text helpers (`text`), JSON member reads (`json`) and token checks
  (`cli`). Laws that relate several functions are public proof functions named
  `lemma_*` beside the functions they speak of.
- `tests/` — tests on concrete values, run against the compiled library.
- `app/` — the `harness` binary: argument parsing, the audit log and running
  the command, around the library's policy decisions.
