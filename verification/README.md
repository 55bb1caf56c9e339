# social_api

The verified core of a small social-network backend (REST plus GraphQL over
PostgreSQL): user identifiers and their text, session tokens (HS256 JWT),
Argon2 password checks, the rules for uploads and stored files, the
decisions of the GraphQL resolvers, and the batch loaders' keying.

- `src/` is the library, written in Verus. Every function carries a
  contract; the calls into `uuid`, `jsonwebtoken`, `argon2`, `chrono` and
  `char::is_whitespace` stand behind small trusted wrappers whose doc
  comments say what is assumed of them.
- `tests/` runs the library against the real outside crates.
- `app/` is the server around it: actix-web routes, sqlx queries,
  async-graphql objects and loaders, and the environment. It reads inputs,
  asks the library what to do, performs the I/O, and writes the answers.
