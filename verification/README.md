# phi_agent

The verified core of an AI agent runtime framework, written in Verus.

`src/` is the library; every function in it carries a contract that Verus
proves:

- `text` — string helpers (decimal output, trimming, truncation, parsing,
  prefix/suffix tests, lexicographic order).
- `error`, `event` — the error type and the runtime events of a turn.
- `compression` — planning of context compression: the tool-pairing-safe cut,
  the transcript handed to the summariser, the summary cache and how a summary
  replaces the old block.
- `prompt` — system prompt assembly from prioritised fragments.
- `lines` — what the JSON line of each event holds, for the JSON stream and
  the turn log, and the turn log's header and end lines.
- `render` — the terminal and JSON-stream renderers as state machines over
  events.
- `session` — session id and snapshot name rules, session id resolution and
  generation, turn log names, the cleanup decision from a session's metadata
  text and the age it records, session metadata updates, snapshot info files
  and their ordering.
- `json` — the `serde_json` operations the library relies on (parse errors,
  field reads, field updates, pretty printing), each named and wrapped.
- `screens` — the texts the interactive loop shows: the welcome banner, the
  session, event, tool and snapshot reports, and the command messages.
- `scaffold` — the files and messages of `phi init`.
- `config` — LLM configuration resolution.
- `cli` — approval strategies, command-line option values, the interactive
  loop's commands.
- `bridge` — bridge protocol data and the external-id session registry.
- `metrics` — the session metrics listing (order, rows) and detail view.
- `pattern` — the identifier pattern, matched with the `regex` crate.

`app/` is ordinary Rust around the library: sessions on disk and their locks,
turn logs as JSON lines, renderers writing to a stream, configuration read
from the environment, the bridge wire format (serde), the command line (clap),
the queued approval channel (tokio), `phi init` on disk and the interactive
loop's reports filled in from the session directory.

`app/` has no `phi` entry point: the interactive loop, one-shot runs, the
protocol servers, metrics loading and log setup drive the agent runtime crates
(`agent_base`, `agent_works`, `llm_unified`, `phi_telemetry`, `log_core`),
which this build does not have. What those parts decide (commands and turn
numbers, output format, safety limits, configuration, session ids, the
metrics listing and detail texts) is in the library.

`tests/` exercises the library.
