# orbitport-helios-challenge

Orbitport's Helios GS ground-station plugin, verified with Verus.

- `src/` is the verified library:
  - `types` — the canonical types (`PassQuery`, `Pass`, `Contact`, `ContactStatus`,
    `Payload`) and `Timestamp`, a UTC instant that chrono can represent;
  - `provider` — `ProviderError`, the errors every plugin reports in;
  - `plugins::helios` — the requests the plugin sends to Helios and the mapping of
    Helios's status codes and bodies onto canonical values and errors;
  - `gateway` — the HTTP status the gateway answers each error with;
  - `mock` — a model of the Helios mock service: its windows, bookings and answers;
  - `laws` — properties relating the plugin, the gateway and the mock;
  - `formats` — the calls into chrono, base64 and reqwest, with their trusted contracts.
- `app/` is the program around it: the async `GroundStationProvider` trait, the
  network exchange with Helios (reqwest), the gateway's `GET /passes` route and
  the mock's HTTP routes (axum). `orbitport mock` runs the mock on :8081;
  `orbitport` runs the gateway on :8080.
- `tests/` exercises the library on concrete values, the plugin against the mock
  model included.
