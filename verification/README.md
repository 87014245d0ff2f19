# websocket_stream

Typed message streams over websockets: a server endpoint and its client exchange JSON objects, each
sent as one text message.

- `src/` is the library. It decides what happens: whether a request may be upgraded, how a message
  is encoded and read, what is handed on, what ends a stream. It is verified with Verus.
  - `websocket` and `websocket_client`: the two sides of a stream, and the tasks behind them.
  - `schema`, `message`, `model`, `error`: the messages and requests that they deal in.
  - `drain`: what a call to shut down guarantees of the messages that are sent.
  - `delivery`: what is guaranteed of the messages that are received.
  - `exchange`: both directions together, over either kind of connection.
  - `channel`: how contracts speak of calls on channels, and a sending end that records what went
    through it.
  - `boundary`: everything that is taken on trust of other crates and of the standard library.
- `app/` reads, writes and closes the connections, and does what the tasks answer.
- `tests/` runs the library on concrete messages, with the real channels.
