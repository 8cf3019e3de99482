# scampi

The verified core of a rustc driver that records, for every crate a Cargo
build compiles, which functions it defines and which it calls.

- `src/` is the library, verified with Verus:
  - `args`: what the driver reads from the rustc command line;
  - `span`: turning a span's debug text into a path-like location;
  - `call`: the model of a call expression and the checks before recording it;
  - `graph`: the state of the call-graph walk (enclosing functions, loop
    depth), what it does at each kind of expression, and the Cypher queries
    it produces (function nodes, parameter nodes with `ACCEPTS` edges, call
    edges);
  - `inventory`, `data`, `keyed`: the inventory of foreign (C) functions
    called and of every such call;
  - `lint`: which constructor parameters the raw-pointer lint reports;
  - `manifest`, `config`: workspace manifest, log level, launch environment.
- `app/` holds the compiler callbacks and the traversal of the compiler's
  syntax tree, the database and file output, logging
  and the command-line launchers.
- `tests/` exercises the library on concrete values.
