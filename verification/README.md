# vitaGL Helpers

Helpers for vitaGL development on PlayStation Vita: owning handles of GPU
resources, shader compilation and program linking, vertex attributes, uniforms,
textures, draw calls, GL errors and vitaGL initialization.

## Layout

- `src/` is the library, verified with Verus. It decides and does not touch the
  GPU: each operation returns the GL and vitaGL calls to make as
  `call::GlCall` values and takes what a query returned as an argument.
  Compiling a shader and linking a program are one state machine
  (`protocol::ObjectBuild`); reading an info log is another
  (`info_log::InfoLogRead`).
- `app/` makes the calls: the vitaGL FFI, the executor of `GlCall` values, the
  loops that run the state machines, RAII ownership (`Owned`), the operations on
  floats and client memory, and the `attribute_table!` and `uniform_table!`
  macros.
- `tests/` runs the library on concrete values.

## Features of `app`

- `debug-gl`: `debug_check_error` reads `glGetError` after an operation and
  prints the line that `errors::debug_error_line` makes of it; without the
  feature it does nothing.
- `logging`: initialization, shader compilation, program linking and the
  deletion of owned objects are logged through the `log` crate.

Both are enabled with `--cfg 'feature="..."'` when `app` is built.
