# kcp

The decision logic of a transport on top of the KCP engine, written and proved in Verus.

- `src/` is the library. It does no I/O: each connection and each listener is a state machine
  whose `step` takes what the last action led to and says what to do next.
  - `protocol` and `ffi`: packet headers, and what is known of an engine between two calls.
  - `stream`: connections with a handshake; `stream::state` says what each event leads to,
    `stream::task` does it, `stream::laws`, `stream::reading`, `stream::writing` and
    `stream::delivery` say what holds of every connection.
  - `session`: connections between two fixed addresses, without a handshake.
  - `udp`: a listener that shares one socket among its connections.
  - `conv`: conversation numbers that have been given up lately.
  - `halfclose`, `transport`, `config`, `frame`, `addr`, `error`: what the others need.
- `app/` is the runtime: it calls the engine, sockets, channels and clocks and feeds the state
  machines.
- `tests/` runs the library, among others two ends of a connection over a simple engine.
