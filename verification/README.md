# uma

Data tools for Umamusume: Pretty Derby. The library reads the game data
published by GameTora (skills, skill conditions, trainees, support cards,
racetracks, trainee pages) and pages of the Umamusume wiki (skill effects,
the trainee list), lays the data out for a PostgreSQL database, and shapes the answers
of an HTTP API guarded by a bearer key.

The library under `src/` is written in Verus: each function carries a
contract, and Verus proves the code against it.

- `json`, `text`, `dates`, `ids`: JSON values, text operations with their
  meaning stated over character sequences, calendar dates, identifiers.
- `models`, `support_card_skill`, `uma_skill`: the domain model.
- `scraping`: parsers of the data files and pages, the resolution of data
  file addresses through the manifest, support card effect interpolation,
  unique effect descriptions, and the decisions of the fetch loop (response
  classification, retries and backoff).
- `db`: the database enumerations and rows, the columns of the bulk upserts,
  the skill listing query, and the grouping of stored trigger conditions.
- `api`: the API key check, the answer shapes, and the mapping of rows to
  answers.

`app/` holds the program around the library: the command line (`uma sync
skills|uma|cards|all`, `uma serve`), HTTP requests, JSON text parsing, SQL
execution and the HTTP server. `tests/` holds the tests.
