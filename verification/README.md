# qp_hd

Wallet derivation under the QP44 path scheme, verified with Verus.

- `src/` is the verified library:
  - `qp44` — chains, purposes, path mass, the QP44 wallet engine and the
    multi-chain derivation;
  - `manifold` — the `quantom_value` QuantPerm state envelope and its calls;
  - `address` — Bitcoin, Ethereum, Tron and Solana receiving addresses;
  - `config`, `protocol_id` — the protocol seed and the quantum identity;
  - `pathsregistry`, `balance` — chain paths and endpoints, and balance
    arithmetic;
  - `encoding`, `crypto`, `text` — encodings, and the trusted calls into
    hashing, curve and text libraries.
- `tests/` runs the library against known answers.
- `app/` is the HTTP service: environment, network requests, JSON and
  floating-point balances.
