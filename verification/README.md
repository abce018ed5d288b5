# user_service

A user service over HTTP: sign-up, login with session tokens, a session
check in front of every route, an access log, and e-mails from templates.

- `src/` is the verified library. Its functions carry `requires`/`ensures`
  contracts that Verus proves; the laws of the service (what a sign-up
  stores a login accepts, when a session is refused, the order of the
  sign-up steps, and so on) are public proof functions beside them.
  Sign-up and login are state machines: each step says what outside work
  comes next (open a transaction, insert a row, send an e-mail, sign a
  token) and takes the outcome of that work as its next event.
- `app/` is the server around it: configuration and template files, the
  SQLite pool and queries, the SMTP transport, JSON web tokens, the actix
  routes and middleware, and logging.
- `tests/` exercises the library on concrete values.
