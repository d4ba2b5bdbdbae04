# context_policy

A context policy decides, before each request to a model, whether the context is
kept or compacted. This library holds the verified part of such a policy and of
the ledger of raw request evidence beside it.

- `src/` is the library. It does no input or output: it takes what was read and
  gives what is to be written. Every function states in its contract what it
  returns, and Verus proves it.
- `app/` is the shell around it: files, the clock, the policy process.
- `tests/` runs the library on concrete values.

## What is proved

- A configuration is accepted exactly where it can be used, and otherwise refused
  with the first complaint about it.
- A decision in process follows the threshold or the stub. A decision of the
  policy process is taken as the response says, with its diagnostics unchanged,
  and nothing is decided in its place where something goes wrong.
- A response is accepted only where it repeats its request.
- What is written to the ledger can be read again, and reading it gives back the
  indices at which writing goes on, after any number of calls. Evidence of another
  run is refused, and so is evidence in which an event was recorded twice.
- No event writes over what every record says of its run and its request.

## What is trusted

Reading and writing JSON is left to `serde_json` and `serde`. The items that call
them stand in `src/json.rs`, each with the contract that is believed of it. Two
functions of the standard library are specified in `src/text.rs`.
