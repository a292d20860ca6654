# bible_api

The verified core of a REST service that serves Bible verses from a Postgres
database.

- `src/` is the library, verified with Verus:
  - `constants`: the canon (66 books: names, abbreviations, chapter and verse counts);
  - `models`: the data read from the database, taken from clients and answered;
  - `error`: the errors a request ends in, their HTTP status and message;
  - `text`, `sql`: the std text operations and the sqlx `QueryBuilder` calls
    that the library makes, with their contracts;
  - `queries`: the SQL queries of the verse, random-verse, search and
    chapter-count endpoints;
  - `books`: the translation and book-list endpoints;
  - `navigation`: the state machine that finds the pages before and after a
    page, and its laws.
- `tests/` runs the library against the real sqlx.
- `app/` is the actix-web server: endpoints, database access, OpenAPI docs.
