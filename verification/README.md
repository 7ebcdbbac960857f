# llvm_codegen

Small LLVM code generators built on `inkwell` (LLVM 14), verified with Verus.

- `src/env.rs`: nested scopes mapping variable names to stack slots, with
  their lookup laws.
- `src/llvm.rs`: the `inkwell` types and calls the generators use. A module is
  modelled by its module-level values (functions with their signatures and
  blocks of instructions, integer global variables with their initial
  values), the order of its functions, its name and its identity. Integer
  values are modelled as expressions over constants, parameters and
  instruction results. Types, functions, values, slots, blocks and the
  builder are held in this library's own types, made only by these calls and
  tied to the module they belong to, so that no call is handed an input on
  which `inkwell` panics or that belongs to another module.
- `src/common.rs`: the module with `main` and `printf` that the programs share.
- `src/ret.rs`, `src/global_vars.rs`, `src/if_else.rs`, `src/loops.rs`,
  `src/structs.rs`, `src/call.rs`: one program each. `Compiler::new` sets up
  the module and its declarations; the `build_*` methods emit `main`. Where a
  program is built in two steps, `law_program_body` states the body of `main`
  that they produce together.
- `app/main.rs`: picks a program by name, creates the LLVM context and the
  `printf` format string, and writes the module as `.ll` text.

LLVM is linked dynamically (`llvm-sys` with `prefer-dynamic`), since the
system's LLVM 14 lacks some static libraries.
