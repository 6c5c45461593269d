# uptime_monitor

A service-uptime monitor: it runs periodic checks against HTTP sites (by
status code, or also recording the body), PHP sites, hosts' status
endpoints (`preflight`), databases, SQL queries and the AWS bill, records
each result, opens an incident when a service stops being up and resolves
it when the service recovers, and serves all of it over an HTTP API and a
WebSocket feed. A second, tiny program reports the time and free disk space
of a monitored host.

## Layout

- `src/` is the verified library (Verus). It holds the decisions:
  - `json` — the JSON document model that configurations and check details
    use;
  - `checkers` — each checker's settings and verdicts, the checker
    dispatch, and the AWS Signature V4 signing of the Cost Explorer request;
  - `incidents` — when an incident is opened or resolved;
  - `scheduler` — the registry of running workers, restart backoff, and what
    a worker does on each tick;
  - `api` — parameters, partial updates, validation of new services and
    system health for the HTTP API;
  - `provider` — calendar arithmetic, ISO 8601 timestamps and response
    framing of the status endpoint;
  - `text` — decimal rendering and string tests.
- `app/` is the program around it: the database, HTTP fetches, the clock,
  the WebSocket feed, the async task loops, and the floating-point
  comparisons. `app/main.rs` runs the backend, or the status endpoint when
  given the argument `provider`.
- `tests/` exercises the library on concrete values.
