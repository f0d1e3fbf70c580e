# miniredis_server

A small Redis-protocol key-value server, with its decisions verified by Verus.

- `src/` is the verified library:
  - `frame.rs`: protocol frames as plain values (`RespFrame`) and their mathematical view.
  - `command.rs`: commands decoded from frames; decoding calls `mini_redis::Command::from_frame`.
  - `db.rs`: the store, a map from string keys to byte values.
  - `server.rs`: what the store server and the placeholder server answer to each frame,
    and what a connection does after each read.
  - `laws.rs`: properties of the store's answers (a get after a set gives the value back, ...).
  - `echo.rs`, `ws.rs`: the decisions of the echo servers and of the websocket server.
- `app/` holds the programs: sockets, tasks, the shared lock, logging, JSON.
- `tests/` runs the library on concrete requests.
