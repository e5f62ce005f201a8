# aezarx_backend

The backend of the AEZARX manga bookstore: accounts and sign-in, session
tokens, single-use e-mail links, the catalogue, reading progress, the
cart and checkout, and the news feed.

## Layout

- `src/` is the verified library, checked by Verus. It holds every
  decision the server makes: request validation, access rules, the
  status and message of each error, link lifetimes and redemption, the
  JSON text of session claims and its parser, paging, search patterns,
  stock checks and order totals, and the texts of outgoing mail. Calls
  into `jsonwebtoken`, `serde_json`, `uuid`, `hex`, `rand` and `chrono`
  go through small trusted wrappers whose contracts are documented where
  they stand.
- `app/` is the HTTP server around it (axum, sqlx, lettre, bcrypt): it
  reads requests and rows, hands the library plain values, and performs
  the queries, mail and replies that the library decides on.
- `tests/` runs the library on concrete inputs, with the real outside
  crates linked.
