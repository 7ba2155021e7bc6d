# home_maintenance

A self-hosted tracker for home maintenance: assets, the tasks that keep them
running, reminders of when each task is next due, a log of work done, supplies
and locations. It serves HTML pages and a JSON API over PostgreSQL or SQLite.

## Layout

- `src/` — the library, verified with Verus. It holds the rules of the tracker
  with their contracts:
  - `calendar`, `text`: dates (through `chrono`) and text helpers;
  - `domain`: schedules, recurrence (next due dates, statuses of reminders);
  - `repo`: the records, the rules for updating them, the queries that list them;
  - `api`, `web`: request bodies, the access rules, the signed session cookie,
    and the data of each page;
  - `config`, `db`, `error`: settings, SQL dialects, error responses.
- `app/` — the server around the library: configuration from the environment,
  the connection pool and SQL execution, HTTP routing, page markup.
- `tests/` — tests of the library.
