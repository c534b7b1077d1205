# Transaction pipeline

Takes transactions in over HTTP, screens each for signs of fraud, stores all of
them and publishes the suspicious ones again.

- `src/` is the library: what a transaction is, the rules, the velocity
  tracker, and the decisions of the two services. All of it is verified with
  Verus. The calls into `chrono` and `uuid` stand behind small functions whose
  contracts are stated and not proved; they are in `timestamp.rs` and
  `transaction.rs`.
- `app/` is the program around it: HTTP, Kafka, ClickHouse, metrics and JSON.
- `tests/` runs the library.

Three rules flag a transaction: an amount above 10000, an hour of the day from
1:00 up to 4:00 UTC, and more than five transactions of one account within 60
seconds.
