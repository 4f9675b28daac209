# arcee_code

A terminal AI coding assistant built around a library whose logic is
verified with Verus.

- `src/` — the verified library: text utilities, structured tool output and
  its TOON rendering, permission policy, configuration layering, task and
  background-task stores, hooks, conversation compaction, model routing, the
  decisions of the conversation loop, the reading of streamed replies, and
  the argument handling and output shaping of every built-in tool. Calls
  into `serde_json`, `html2text`, `uuid` and `std::path` stand behind a few
  trusted wrappers whose contracts are documented where they are declared.
- `app/` — the `arcee` program: command line, settings files, the HTTP
  client, running processes and touching files for the tools, shell hooks,
  language-server processes, saved sessions and cost estimates (which use
  floating point).
- `tests/` — tests of the library's public functions.

Verify with Verus from this directory; build and test with Cargo.
