# axum_course

The request handling of an eleven-lesson axum course, as a verified library.

- `src/` holds, lesson by lesson, what each handler, extractor, middleware and
  error mapping decides, as functions from plain request values to plain
  answer values, each with its contract. `text.rs` holds the text helpers they
  share (decimal numbers, white space, joining); `ids.rs` holds the UUID and
  clock calls, made through the `uuid` and `chrono` crates.
- `app/` is the server: `app <lesson>` serves one lesson on port 3000 with
  axum, reads requests and the database, and writes the library's answers.
- `tests/` exercises the library on concrete values.
