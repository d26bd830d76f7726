# betfair_adapter

A client of the Betfair RPC API whose decisions are verified with Verus: which
requests it makes, how a request is shown in logs without its secrets, and what
an answer comes to.

- `src/` is the verified library. It does no input or output: what is to be sent
  is handed out as plain values, and what was received is handed in.
  - `client`: the requests that the client makes.
  - `request`: a request, and the text that shows it.
  - `response`: an answer, received step by step.
  - `fault`: the envelope that an exception of the API comes in.
  - `json`: JSON trees.
  - `http`: requests, headers and statuses as plain values.
  - `error`: what can go wrong.
- `app/` is the asynchronous client around it, on `reqwest` and `serde`.
- `tests/` runs the library with the outside crates linked.
