# breez_backend

A Lightning payment backend for a Cashu mint on top of the Breez SDK, with its decisions verified
by Verus.

- `src/` decides. Each request of the mint is a chain of steps: a method of `BreezBackend` returns
  what is to be asked of the SDK or of the quote database, together with a state, and the state's
  `resume` takes the reply. `startup` and `shutdown` connect and disconnect; `incoming` makes
  invoices; `outgoing` quotes and makes payments; `status` checks on both; `events` tells the mint
  of payments as they come in. `laws` holds what is true across the steps.
- `app/` performs: it implements CDK's `MintPayment` on the SDK and on a database of quotes.
- `tests/` runs the steps on concrete values.

Three calls inside `src/` are taken at their word: `Bolt11Invoice::from_str` with `payment_hash`
(`invoice`), `hex::decode` (`hash`), and the clock (`clock`).
