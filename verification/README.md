# omne_tui

The decisions and texts of a terminal client for an agent server, written
in Verus: the thread picker, the open thread's transcript and composer, the
command palettes, the approvals, processes and artifacts overlays, and the
watch helpers. Each public function states what it returns or changes, and
Verus proves it.

Layout:

- `src/` — the verified library. Functions that in a running client sit
  between server calls are split into steps: a `begin_*` or `*_request`
  function decides what to ask the server, the caller asks, and a `finish_*`
  or `*_step` function takes the answer.
- `tests/` — tests of the library on concrete values.
- `app/` — what Verus does not see: conversions to `ratatui` lines and
  `serde_json` values, and the floating-point context-window share.
