# openclaw-daily-digest

An inbox orchestrator: it reads Markdown items from an inbox, routes each to a
project and an action type, enriches it with a language model, writes a digest
report, pushes a task to an API and posts a Discord summary.

The decisions are a verified library (`src/`, checked by Verus); the program
around it (`app/`) does the file, process and network work and feeds the
library what it observed.

- `src/text.rs` — strings as character sequences: lines, trimming, search,
  UTF-8 lengths, decimal numbers.
- `src/classify.rs` — project routing (explicit line, tag, folder match, model)
  and action-type classification (keywords, model), as step functions.
- `src/enrich.rs`, `src/llm.rs` — model prompts, accepted output, JSON
  extraction, rendering of the enrichment.
- `src/report.rs`, `src/discord.rs` — the digest report and the Discord
  message, cut to Discord's limit.
- `src/run.rs`, `src/util.rs` — the run's limits, outcomes and exit code; inbox
  order, log rotation, log lines.
- `src/api.rs`, `src/policy.rs`, `src/git.rs`, `src/execute.rs` — the task API's
  requests and answers, model selection, git helpers and the execution handlers.

Laws of the library are public proof functions whose names start with `law_`.

The model-selection policy is read from JSON maps keyed by strings. In the
library it is held as association lists whose names are distinct, a type
invariant that `PolicyConfig::new` checks: Verus's specifications of
`HashMap` say too little about lookups by a `String` key to state model
selection over them.
