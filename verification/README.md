# models_endpoint

The `/models` endpoint of an OpenAI-compatible model provider, written in Verus.

- `src/json.rs`, `src/canonical.rs`: JSON values held by `serde_json`, and their
  canonical form, in which the members of every object come in ascending order.
- `src/order.rs`, `src/string_map.rs`: the order of texts; maps from strings to strings.
- `src/provider.rs`: the configuration of a provider and its JSON form.
- `src/fingerprint.rs`: the identifier under which a provider's models are cached.
- `src/headers.rs`: headers of a request, held by `http`.
- `src/auth.rs`, `src/endpoint.rs`: credentials, and the endpoint itself.
- `src/refresh.rs`: the course of asking for the models, step by step.
- `src/telemetry.rs`: what is reported of a request.
- `app/`: runs the steps on the services of a host (credentials, environment,
  network, log).

The maps of `serde_json` must keep the order of insertion: its feature
`preserve_order` is on, and the contract of `Map::insert` says so.
