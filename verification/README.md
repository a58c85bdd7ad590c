# subseq_x402

Route authorization for HTTP services that accept x402 payments and API keys.
A route policy names, for a method and a path pattern, the channels that may
prove a request (`x402`, `api_key`) and whether any one or all of them must
pass. Payments are verified and settled through a configured facilitator;
every evaluated channel leaves an audit row.

Layout:

- `src/` — the verified library (Verus).
  - `models/` — route policies, facilitator profiles, audit rows, the proofs a
    request carries; request validation and paging.
  - `db/` — how stored rows decode, how changes merge into stored records,
    which policy governs a request, how listings are windowed.
  - `api/` — the authorization run (channel order, audit rows, the decision
    and the refusal), the payment and API-key channel steps, the request
    extractors, facilitator answers, roles and error statuses.
  - `api/x402_wire.rs` — the x402 wire format, through the `x402-types`,
    `serde_json` and `base64` crates.
  - `text.rs` — string primitives stated over character sequences.
- `tests/` — tests of the library.
- `app/` — the service around it: axum routes and middleware, sqlx queries,
  reqwest calls to facilitators, serde forms of the library's values.
