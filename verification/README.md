# ravage

A small web tool for building HTTP requests, grouping them in collections and
load testing them, with a browser front end driven by htmx.

The crate is split in two:

- `src/` is the library, verified with Verus: the decisions of the two request
  middlewares, how collection, request and form headers combine, the tabs a
  session keeps open, sign-in by password and by Google, the forms that create
  and edit collections, requests and load tests, the files a load test writes,
  the text shown for a request's response, and the content types of static
  files. Every public function states its result in its contract. Of what
  comes from the clock only a time stamp's shape is stated, and which template
  texts Tera accepts is a named result that the contracts speak of. The
  properties that span functions are proof functions named `law_*`.
- `app/` is the server around it: routing, sessions, the SQLite database,
  templates, web sockets and the outgoing HTTP calls.

The tests under `tests/` run the library with the outside crates linked.
