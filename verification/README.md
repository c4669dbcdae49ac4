# conduit

The logic of a Medium-like blogging API (the "RealWorld" Conduit spec): users and
session tokens, articles with slugs and tags, favorites, and the error responses.

- `src/` is the verified library. Every function carries a contract that Verus proves;
  calls into `bcrypt`, `jsonwebtoken`, `chrono`, `percent-encoding` and a few `std`
  string functions go through small trusted wrappers whose doc comments say what is
  assumed of them.
- `app/` is the HTTP server: axum routes, the SQLite database through sea-orm, and the
  environment (signing secret, clock). Its handlers read and write rows and hand them to
  the library's functions, which decide what to store and what to answer.
- `tests/` exercises the library on concrete values.
