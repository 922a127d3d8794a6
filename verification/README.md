# ec_kernel

Verified kernel of a code evaluation toolkit for Rust sources.

- `src/` is the library, verified with Verus:
  - `text`: character views, non-overlapping pattern counting, decimal rendering;
  - `metrics`, `security`, `coverage`, `complexity`, `reversibility`: keyword measures;
  - `depth_guard`: the nesting guard on delimiters and unary operators, run
    before the parser sees a text (it does not bound generic brackets, so the
    parse itself runs in a worker process);
  - `visitors`, `ast_analyzer`: the counting and warning rules fed by a syntax walk;
  - `isolation`: the outcome of a worker run, the protocol check and the shortening
    of worker output;
  - `workspace`: which directories a scan skips and which files are test code;
  - `codegen`: template-based code generation;
  - `pipeline`: verdicts and the control of the generate-evaluate-retry loop;
  - `api`: request authorization and the plain answers of the HTTP interface.
- `app/` is the `ec` command line tool: file and process I/O, the guarded
  `syn` parse in the worker process, the walk that feeds the visitors, and the
  floating-point fitness scores.
- `tests/` runs the library on concrete values.
