# nautilus_cache

The Redis cache database of a trading system and the kernel around it, as a verified library.

- `src/` is the library. Its functions carry contracts that Verus proves.
  - `keys`, `text`, `config`, `error`: the key schema, strings, settings and errors.
  - `command`, `payload`, `plan`: the commands that a request sends to the background writer.
  - `database`, `adapter`: what each request of the cache writes.
  - `loading`: what each request of the cache reads, and what it makes of the replies.
  - `routing`, `pipeline`: which Redis command a database command becomes.
  - `processor`: when the background writer sends what it has buffered.
  - `effects`: what the writes leave in the database.
  - `streaming`: which events are stored, and when the stream writer flushes.
  - `kernel`: how a kernel is built, started, stopped and reset.
- `tests/` runs the library on concrete values.
- `app/` holds the connections, tasks and threads around the library.

A request does not send anything by itself. It returns a plan: the commands to send, in order, and
what to say if one cannot be sent. The background writer is a state machine that is told what
arrives and answers with the transaction to send. The kernel is driven in the same way, action by
action.

The laws of the library are the public proof functions whose names start with `law_`.
