# MarketShield

Competitive-position monitoring and a governed response workflow for a life
and investments insurer.

## Layout

- `src/` is the library, verified with Verus: the approval chain a response
  must pass, the ids, evidence ledgers and governance checks a new case
  starts with, the checks on decisions and competitor observations, the
  observation history (supersession and point-in-time views), which response
  templates apply and how their stress tests settle a recommendation, the
  monitor's escalation rules and the exit code of the scheduled check, the
  check's command-line options, and the text helpers the reports use.
- `tests/` exercises the library on concrete values.
- `app/` is the service around it: the HTTP API (axum), storage (SQLite via
  sqlx), seed data, the floating-point scoring and scenario economics, the
  Markdown and HTML reports, and the scheduled check
  (`marketshield monitor [--report <path>] [--html <path>] [--trigger <name>]
  [--no-signals] [--allow-breach]`).
