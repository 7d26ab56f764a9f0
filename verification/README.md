# todo_repository

A todo list service's core, verified with Verus.

- `src/todo.rs`, `src/label.rs`: the records, the request bodies and their
  checks, the repository traits and the in-memory repositories.
- `src/todo_db.rs`, `src/label_db.rs`: what the PostgreSQL repositories decide,
  as state machines that ask for one statement at a time.
- `src/validation.rs`: the length rules for texts and names.
- `src/handlers.rs`: the status codes and bodies of the HTTP answers.
- `src/laws.rs`: properties that relate the operations to each other.
- `app/`: the axum handlers, the JSON bodies and the code that runs the
  statements against the database.
