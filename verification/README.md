# termineer

The logic of an AI terminal assistant, as a verified library: the tools an
agent calls (reading, writing and patching files, fetching and searching the
web, shell commands, tasks, MCP servers, screenshots and UI dumps), the
terminal interface's state machine and layout, workflows, and the version
check. Each public function states in its contract what it returns.

Layout:

- `src/` — the library, verified. `text.rs` holds the character-level
  specifications and operations the rest builds on; `tools/` the tools;
  `tui/` and `ui_interface.rs` the terminal interface; `workflow/` the
  workflow system; `json.rs` JSON values as the library reads them.
- `tests/` — tests of the library on concrete values.
- `app/` — the application around the library: files, processes, the
  network, terminal drawing, and the formats read with serde.

Calls into `scraper`, `urlencoding`, `serde_json`, `serde_yaml` and
`quick_xml` stand behind small trusted functions whose contracts name their
results; everything around them is proved.
