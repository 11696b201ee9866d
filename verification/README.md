# hellox

The verified core of the `hellox` command-line assistant, written in Verus.

- `src/` is the library. Its functions carry contracts that Verus proves
  (the one exception is `unix_timestamp`, which reads the clock and so has
  nothing to promise about its result): workspace task lists and their
  commands, workflow scripts (step editing, validation, listing, run
  history), the startup dialogs (workspace trust, provider setup, interactive
  lists), configuration values and paths, the gateway helpers and request
  counters, and the text the command line prints. Calls into outside crates (`dirs`, `sys-locale`, `unicode-width`,
  `reqwest`'s URL parser, `serde_json`, `base64`) sit behind small trusted
  wrappers whose contracts name what the call returns.
- `tests/` runs the library on concrete values.
- `app/` is the `hellox` binary: argument handling, files, the terminal, and
  the conversions between the files' JSON and the library's types.

The terminal dashboard for workflows, the sync commands, the run-inspection
panels and the gateway's HTTP server are not part of this crate: they are
built on the project's terminal, sync and gateway-API crates and on an HTTP
server framework, none of which is a dependency here.
