# references

Finds what an ECMAScript module refers to: the `package.json` that governs it, the requests of its
`import` and `export` declarations, the runtime and the chunks of the webpack bundle that it is
part of, and what its calls of `import`, `require`, `require.resolve`, `fs`, `path.join` and
`child_process` name. A call whose request is not known well enough gets a warning.

- `src/` is the library, verified with Verus. It never waits and performs no input or output.
  - `module_references` starts a search. A search names what it has to be told (`exchange`), and
    goes on with each reply. It ends with the references and the diagnostics, or with the first
    error that it is told of.
  - `call` analyses one call of a function of the platform, `visitor` walks the declarations of a
    module, and `static_analyser` evaluates the expressions that the walk reads.
  - `value_visitor` says what is known of each value that linking meets.
  - `reference` holds the references and how each is resolved.
  - `outcome` states and proves what a search comes to.
- `app/` runs a search against a bundler: it collects the nodes of a `swc` syntax tree, performs
  the actions, and prints the diagnostics.
- `tests/` runs the library on concrete modules.
