# tinyhumans_sdk (verified core)

`src/` is verified with Verus. It describes every call of the API-key and
direct OpenRouter surfaces as an `ApiRequest` (method, path, query, body
presence, response shape), refuses streamed bodies before they are sent,
percent-encodes ids into single path segments, writes query numerals, and
converts API-key scopes.

- `src/http.rs`: requests, query assembly, base URL and bearer header.
- `src/encoding.rs`: path-segment percent-encoding and its laws.
- `src/text.rs`: decimal numerals.
- `src/api_keys.rs`: scopes, their conversions, `/api-keys` routes.
- `src/agent_integrations/`: OpenRouter catalogs, passthroughs, media and
  video routes, and the media reference builders.

`app/` is the networked client: serde models (including those with prices and
costs in `f64`), body serialization, sending with `reqwest`, and envelope
decoding. `tests/` exercises the library on concrete values.
