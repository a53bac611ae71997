# crypto_asset_backend

Backend of a research USD stablecoin (rUSD) issuer: reserve coverage and
asset-state policy, an operation gate for issuance and redemption, the
issuance and redemption settlements, quarterly CASP activity reporting and
an ESG allocation of network energy per transaction.

- `src/` is the library, written in Verus. Every function carries a
  contract, and the properties that span functions are stated and proved
  as `law_*` proof functions. The settlements are state machines: each step
  takes the answer to the previous action and returns the next action.
- `tests/` runs the library on concrete values.
- `app/` is the process around it: configuration from the environment,
  SQLite storage, the HTTP clients of the bank and the CASP, the token
  contract over JSON-RPC, the pollers and the HTTP API.
