# complex_server

An asynchronous calculation server: clients submit a calculation (Fibonacci
number, prime factorisation, matrix product, sleep), receive a job id, and poll
or long-poll for the result. SQLite is the ledger of record; Redis holds the job
queue and a cache of finished jobs.

## Layout

- `src/` is the verified library (Verus). It holds the calculations and their
  limits (`domain/engine.rs`, with exact prime factorisation and exact
  Fibonacci numbers), the job status rules (`domain/job.rs`), job ids and their
  text (`ids.rs`), queue entries and cache keys, the decoding of stored rows,
  the error statuses and messages, the configuration overrides, and the
  decisions of the HTTP handlers and of the workers, each as a function from
  what just happened to what to do next.
- `app/` is the server around it: the HTTP routes (axum), the SQLite ledger
  (sqlx), the Redis queue and cache, the waiter registry, the worker tasks, the
  floating-point matrix product, and start-up and shutdown.
- `tests/` exercises the library on concrete values.
