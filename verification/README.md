# overleaf_service

The decision logic of a local service that manages Overleaf accounts:
saving and switching accounts, password and cookie logins, trial
registrations with card retries, account imports and their follow-up
actions, remote project cleanups, the skills hand-over and the task
bookkeeping behind all of them. The logic is written in Verus, and each
public function states in its contract what it returns or changes.

## Layout

- `src/` — the verified library. Long-running operations are written as
  step functions: each takes the current state and what the last outside
  action found, and returns the next state and the next action. Request
  parsing, error messages and JSON bodies are functions on text with exact
  contracts. Laws that relate several functions are public proof
  functions beside the functions they speak of.
- `tests/` — tests on concrete values, run against the compiled library.
- `app/` — the unverified part: file and network I/O, serde copies of the
  library's types, and the loops that perform the actions the step
  functions ask for.

Calls into outside crates (`serde_json`, `url` through `reqwest`,
`base64`) and a few std functions go through small trusted wrappers whose
doc comments say what their contracts claim.
