# boardtask

Boardtask is a web application for organizations that plan work as graphs of
tasks: users sign up and verify their email, log in, invite teammates into
their organization, and edit project graphs (nodes, edges, slots) through a
JSON API.

- `src/` is the library, written in Verus: the domain types (emails,
  passwords and their Argon2 hashes, profile image URLs, ULID identifiers,
  roles), the configuration, the database rows, and the decisions of the
  pages and endpoints (form checks, what each page shows, where a request
  is redirected, what is written), each with a contract and a proof. Laws that span calls
  (updating a node twice is updating it once, inserting between two nodes
  rewires exactly one edge, slot names stay unique, one verification email
  per address per minute, redirects stay on the site) are public proof
  functions next to the code they are about.
- `app/` is the web server around it: axum routes, SQLite queries through
  sqlx, cookies, email sending and HTML. It reads what a request needs,
  hands plain values to the library, and performs what the library decides;
  what it still decides itself is the order of its database calls and how it
  reports a failed one.
- `tests/` runs the library on concrete values.
