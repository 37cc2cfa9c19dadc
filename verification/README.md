# oidc_mock

A verified mock of an OpenID Connect provider backend, for testing client
code. The library (`src/`) is checked by Verus:

- `url_value`: URLs parsed by the `url` crate, kept with their source text.
- `metadata`: the provider metadata the mock advertises, validated by
  `mas-oidc-client`, and the discovery errors.
- `tokens`: session tokens, registration answers, token-request errors.
- `mock`: the backend state, its builders and its answers (discovery, code
  exchange, client registration, revocation, refresh).
- `laws`: properties that span several operations (refresh counting,
  revocation order, security modes, builders).

`app/` shares a backend between tasks behind a mutex and converts the
library's answers into the types of `mas-oidc-client`.
