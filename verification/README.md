# timez

The core of a desktop time tracker, verified with Verus: the local timer
and its clock protections, the offline-first stores of time entries, the
retry queue of sync operations, idle detection, the request protocol
between the app and its background services, and the URL handling of the
browser sign-in.

Layout:

- `src/` — the verified library (`timez`). Each module states its
  behaviour in `requires`/`ensures` over spec functions and views; the
  `law_*` proof functions state properties that span several operations.
- `tests/` — tests that run the library on concrete values.
- `app/` — the background services as one executable (`timez <service>`):
  sockets, HTTP calls to the backend, D-Bus queries, files on disk and the
  JSON forms of the data, around the library's decisions.
