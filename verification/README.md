# viloz

A small process manager. A web API lets an authenticated user list, start,
stop, restart and pull the processes it manages; a handler thread keeps the
processes' status and forwards requests to them over channels.

Layout:

- `src/` — the verified library (Verus): the message protocol
  (`communication`), the handler and the per-process state machines
  (`process_handler`), the text formats they exchange (`text`,
  `endpoints::processes::get_processes`), the database input checks
  (`database`), sessions, passwords and cookies (`guards::auth`), and the
  decisions of the endpoints and guards (`endpoints`, `guards`, `website`).
- `app/` — the server around it: actix-web routes, the SQLite queries, the
  handler's receive loop (which sends the replies and forwarded requests that
  the library decides on), and the loop of each process, which sends the
  status reports the library gives and runs the scripts under
  `<process path>/api` (`build.sh`, `start.sh`, `stop.sh`, `pull.sh`).
- `tests/` — tests of the library.
