# mf_derive

The logic of the ModuForge-RS procedural macros, verified with Verus.

The macros read Rust items (`#[derive(Node)]` structs, `#[impl_command]`
functions, component and aspect types) and emit code. Here every macro works
on a plain model of its input (`syntax`, `command::CommandFn`,
`di::component::ComponentInput`, ...) and produces the emitted code as token
text, with tokens spaced as the token printer spaces them; string literals
are written with the library's own escaping (`generator::tokens`). Contracts state that text, the
refusals and their messages, over spec functions.

Layout:

- `src/` — the verified library
  - `syntax`, `text`: the input model and string helpers
  - `parser`: attribute parsing, default values, field analysis, validation
  - `converter`: field-to-JSON converters and their priority-ordered registry
  - `generator`: the Node and Mark code generators
  - `node`: the `#[derive(Node)]` pipeline and `#[derive(PState)]`
  - `command`: `#[impl_command]`
  - `di`: component, injectable, service, bean and aspect macros
  - `expression`, `loader`: expression-function counts, closure names,
    parser results, and the in-memory decision loader
- `app/` — the token-level edge: reading `syn` items into the model, argument
  parsers, the process-wide registry behind a lock, and tokens from text
- `tests/` — the test suite
