# whoup

An OpenID Connect provider that signs users in through Google, written as a
Verus library with an HTTP server around it.

- `src/` is the verified library. Each endpoint is a function from the request
  and the stored records it reads to its decision (the answer, and the records
  to store where it makes any), with a contract that fixes it; the code
  exchange at `/token` decides whether the stored code answers the request, and
  the server then drops the code and issues the tokens: `endpoints/authorize.rs` (the code flow with S256
  PKCE), `endpoints/callback/goog.rs` (Google's callback: session, cookie and
  code), `endpoints/token.rs` (code exchange and the signed ID token),
  `endpoints/userinfo.rs`, `endpoints/openid_config.rs` and `endpoints/jwks.rs`.
  `config.rs` reads the configuration, `keys.rs` and `keygen.rs` make the RSA
  signing keys, `laws.rs` states what holds across endpoints.
- `src/outside/` holds the trusted items (and the verified decimal numerals):
  each names one function of an outside crate (`uuid`, `url`, `http`, `sha2`, `base64`, `serde_json`,
  `jsonwebkey`, `jsonwebtoken`, `rsa`, `openssl`) and states what its source
  or documentation shows of it. `time.rs` holds two more, for the range
  checks of `chrono` and `time`.
- `app/` is the `axum` server: it reads the environment, keeps the in-memory
  stores (`moka`) and the refresh tokens (Redis), calls Google (`reqwest`),
  sets cookies, and turns the library's answers into HTTP responses.
- `tests/` runs the library with the real outside crates linked.
