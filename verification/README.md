# mini_exchange

A verified core for a small exchange backend made of three services: a market
service that quotes prices, a portfolio service that executes buy and sell
orders against user balances and holdings, and an audit service that stores a
trail of order events.

- `src/` is the library, verified with Verus: the order model and its errors,
  the HTTP status each error is answered with, the order-execution protocol as a
  state machine (`order.rs`) with its laws (`order_laws.rs`), the price store's
  cache-or-drift lookup (`price.rs`), the market client's handling of replies
  (`market.rs`), and the audit forwarder and subscriber (`forwarder.rs`,
  `audit.rs`). Amounts and timestamps are type parameters: the library carries
  them and leaves arithmetic and comparisons on floating-point values to the
  services.
- `app/` runs the three services (axum, sqlx, redis, reqwest): it performs what
  the library's machines ask for and reports back what happened.
- `tests/` drives the machines with an in-memory market and database.

A placed order that ends rejected because the user's cash does not cover its
cost is answered with HTTP 422 (Unprocessable Entity), with the rejected order as
the body. Every other placed order that comes back, executed or rejected for any
other reason (insufficient holdings, an unknown user, a failed statement), is
answered with 200.
