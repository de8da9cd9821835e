# win-ipc

Shared-memory IPC channels for latency-sensitive services:
[iceoryx2](https://crates.io/crates/iceoryx2) zero-copy transport and
[wincode](https://crates.io/crates/wincode) serialization, with the decisions
around them verified in [Verus](https://github.com/verus-lang/verus).

- `src/` is the verified library. It opens no service and starts no thread: it
  says what has to be done next, takes back how that went, and says what comes
  after. Each step has an exact contract, and the `law_*` proof functions state
  what holds of whole runs: dead nodes are swept before a node is created, a
  port is retried once after a sweep, an oversized message is refused before
  anything is loaned, every message taken out of the queue reaches the handler
  once and in order.
- `app/` performs the actions: nodes, services, ports, threads, messages of any
  type that wincode can write and read.
- `tests/` runs the library on concrete values.

| module     | what it decides                                            |
|------------|------------------------------------------------------------|
| `config`   | the settings of a channel and the quality of service       |
| `service`  | which names a service may carry                            |
| `node`     | sweeping dead nodes, creating nodes and ports              |
| `sender`   | setting a sender up, sending one message                   |
| `receiver` | setting a receiver up, reporting on it                     |
| `polling`  | draining the queue, cancellation, undecodable messages     |
| `channel`  | the two halves of a bounded tokio channel                  |
| `bridge`   | what follows when a message is offered to a consumer       |
| `counters` | what is counted, and under which name                      |
| `demo`     | what the demo reports                                      |

Channel names must be unique per message type: payloads are raw wincode bytes,
and a type mismatch surfaces as deserialize failures, not as a crash.
