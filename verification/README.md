# rust_tour

A small library around blog posts from the JSONPlaceholder service, verified
with Verus, and a program that runs its examples.

- `src/` is the verified library: decimal rendering of numbers (`decimal`),
  string helpers (`text`), post addresses (`placeholder`), random ids
  (`random`), and one module per example program (`ownership`,
  `structs_and_traits`, `serialization`, `concurrency`, `web_framework`,
  `shared_state`, `database`). The `database` module holds the error type with
  the responses it becomes, and the fetch and lookup flows of the post route
  as step functions from state and event to next state and action.
- `app/` is the program: it parses the command line, does the HTTP and
  database work, runs the web servers, and prints.
- `tests/` runs the library on concrete values.
