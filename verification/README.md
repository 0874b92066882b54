# circus

An issue tracker (organizations, projects, boards, tasks, comments,
attachments) and `mini-circus`, a single-file task board for the command
line. The rules of both are a library verified with Verus; the programs
around it are ordinary Rust.

## Layout

```
src/          the verified library
  rbac.rs       roles, actions and who may do what
  auth.rs       registration rules, token claims, bearer tokens
  orgs.rs       organization, membership and invitation rules
  projects.rs   project keys, project membership, tags
  tasks.rs      task, comment and attachment rules
  error.rs      the API's errors and their HTTP status codes
  events.rs     what an open board socket does with each event
  queries.rs    SQL statements with their bound values (service)
  store.rs      the board's model, its errors and its SQLite statements
  cli.rs        the board's commands and the partial updates they make
  output.rs     the board's markdown, with user text escaped
  status.rs     task status and priority, with their text forms
  slug.rs       organization slugs
  ids.rs        UUID text forms and invitation tokens
  storage.rs    attachment keys and paths
  config.rs     service configuration from its variables
  text.rs       string, trimming and decimal primitives
  time.rs       timestamps
tests/        tests of the library, run against the compiled crate
app/          the HTTP service (axum, PostgreSQL) and the board's command
              line (clap, SQLite, termimad), which call the library
```

Every public function of `src/` carries a contract; the laws that relate
several functions are the public `lemma_*` proof functions.
