# deli

`deli` is a local-first terminal console for day-to-day DevOps work: documents
(Markdown and Mintlify, from commands, Notion or Feishu), configuration and
service tables, worktree actions, and metrics drawn with gnuplot.

The decisions and computations live in the verified library under `src/`,
written in Verus with `requires`/`ensures` contracts:

- `config`, `error` — configuration model, defaults, error values.
- `document` — Markdown and Mintlify normalization into render nodes.
- `dataframe` — typed tables: filtering, stable sorting, records, CSV, row
  updates from JSON records.
- `gnuplot` — chart scripts and plans, cleaning gnuplot's text output.
- `terminal_theme`, `screen` — reading the terminal's background colour,
  colours, titles and layout choices of the screen.
- `providers`, `registry` — provider traits, command-backed providers and how
  configured providers are built.
- `json` — JSON string escaping and request bodies of text fields.
- `metrics` — Prometheus/VictoriaMetrics range queries and OpenTSDB query
  bodies, and the series their replies give.
- `remote`, `feishu` — Notion and Feishu document addresses and replies, the
  Feishu sign-in protocol.
- `state`, `session`, `keys`, `panels` — the console's state, what each key
  press and each provider outcome does to it, and the text of every panel.
- `laws` — properties that span several calls.

`app/` is the program around the library: terminal drawing with ratatui,
the event loop, running provider commands, HTTP, files, and the JSON and TOML
formats. `tests/` exercises the library.
