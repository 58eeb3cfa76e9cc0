# charity_pbm

The verified core of a purpose-bound-money (PBM) payment service for a
charity: donors' tokens are granted to registered users, who spend them at
merchants through a PBM contract; merchants redeem them for the underlying
ERC-20 token.

- `src/` is the library, verified with Verus: ABI call data for the PBM and
  ERC-20 contracts, Ethereum address and quantity texts, signed raw
  transactions, the text members of request bodies, the result of JSON-RPC
  replies, cookie sessions and fresh
  codes, and the decisions of the registration,
  activation, login, payment, funding and redemption flows (the first two as
  state machines that the service drives).
- `tests/` runs the library on concrete values.
- `app/` is the flows.network webhook service around it: the HTTP router,
  the MySQL database, the key-value store, email and SMS delivery, the
  JSON-RPC node, and the listings whose amounts are floating point.

Activation reads its grant list from `activation_amounts.csv` beside the
service; a header row, then records whose third, fourth and fifth fields are
the phone country code, the phone number and the whole tokens granted.
