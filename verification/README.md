# bulkmail

A parallel transaction sender for fast EVM chains, with its decision logic
verified in Verus.

- `src/` is the verified library:
  - `clock`: UTC times and the clocks that produce them;
  - `message`: messages, their effective priority, deadlines and retries;
  - `transaction`: transactions with dependencies and retries;
  - `priority_queue`: the queue of messages, highest effective priority first;
  - `gas_price`: congestion analysis and priority fees;
  - `nonce_manager`: nonce assignment and the nonces in flight;
  - `sender`: the sender's state machine, from queued message to sent,
    confirmed, replaced or abandoned transaction.
- `app/` connects the library to a chain over a websocket: signing, sending,
  watching for receipts and the async loop that drives the sender.
- `tests/` runs the library on concrete values.
