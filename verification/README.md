# lspf

The decisions of a Language Server Protocol framework, verified with Verus.

`src/` is the library. It holds everything that can be decided without waiting
for a peer:

- `documents`, `rope`, `units`, `uri_key`: open documents, their positions in
  UTF-8 and UTF-16 units, and the key that spellings of one URI share;
- `capability`, `capability_laws`, `features`, `options`: what a server advertises, merged from
  what its handlers contribute;
- `builder`, `resource_policy`, `error`, `failure`: how a server is put
  together, its budgets, and what is reported when something goes wrong;
- `message`, `json`, `params`, `codec`: messages, JSON values and the parameters
  of the protocol's own methods;
- `session`, `outbound`, `table`, `progress`, `client`, `context`: requests in
  flight, the bounded outbound queue, the handle to the client and the context
  that a handler gets;
- `engine`, `step`, `engine_laws`, `engine_runs`: the server's lifecycle as a
  function from a message to what is to be done, and what holds over a whole
  connection;
- `client_endpoint`, `client_engine`, `client_progress`: the same for the client;
- `dispatcher`: a server with a fixed set of messages.

Functions state what they return in `ensures`; the proof functions named `law_*`
state what holds across functions. Calls into `ropey`, `serde_json`,
`gen-lsp-types` and `lsp-types` go through small trusted functions, each with a
comment that says what is believed of the call.

`app/` is ordinary Rust around the library: transports, tasks, channels and the
drivers that carry out what the library decides. `tests/` runs the library
against the real dependencies.
