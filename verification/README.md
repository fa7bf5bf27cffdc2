# haretropanel

A small Home Assistant dashboard server for old tablets and browsers.

- `src/` is the verified library (Verus): entity classification from the
  `/api/states` payload and the service calls and URLs sent back (`ha`), the dashboard cache policy (`cache`), the
  visible-entity selection (`dashboard`), the stored layout and its page
  map (`layout`), the dashboard and settings view models with paging
  (`viewmodels`), the request forms (`forms`), and the step function of the
  live WebSocket feed (`live`). Each public function
  carries its contract; the `law_*` proof functions state the properties
  that relate several of them.
- `app/` is the server around it: configuration from the environment, the
  HTTP client for Home Assistant, the layout file, the async service with
  its lock, the axum routes and the askama pages.
- `tests/` exercises the library on concrete values.
