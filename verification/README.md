# chhoto_url

The request-handling decisions of the Chhoto URL shortener's HTTP API,
verified with Verus.

- `src/` is the verified library. `services::get`, `services::put` and
  `services::delete` decide what each API endpoint answers, from how the
  request was authenticated, the configuration, and what the link store
  answered; a handler that needs the store is split into a first step
  (`*_start`, which answers at once or names the one store operation to run,
  with what it is asked) and a
  second step that turns the operation's outcome into the reply.
  `services::build_router` decides the route table, the frontend, the session
  cookie and the `Cache-Control` layer. `laws` proves what holds across the
  handlers, chiefly that requests without valid credentials are refused with
  `401` and never reach the store.
- `app/` is the axum layer: it extracts what a request carries, performs the
  store operations through the `Backend` trait, and renders the library's
  replies.
- `tests/` runs the handlers on concrete values.
