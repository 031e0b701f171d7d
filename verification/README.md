# kyokara_codegen

WASM code generation for the Kyokara language: a module in the language's SSA
intermediate representation (KIR) is compiled to a WebAssembly binary, with
`wasm-encoder` writing the binary format. The library is written in Verus: its
logic is verified against its contracts, and the calls into `wasm-encoder` go
through small wrappers whose contracts state what the crate's source does, with
preconditions that keep every length and section size within the 32 bits that the
encoder asserts. A module whose function bodies would make the code section
outgrow that size is refused with an error rather than a panic.

## Layout

- `src/ir.rs`: the input, KIR functions, the item tree of type definitions and the
  name interner, held as plain values.
- `src/instr.rs`, `src/encode.rs`, `src/leb.rs`: the instruction subset the generator
  emits, and its encoding into `wasm_encoder::Function` bodies, byte for byte.
- `src/text.rs`: the text of types and operators in error messages.
- `src/ty.rs`, `src/layout.rs`: value types of language types, and the memory layout
  of ADTs, records and closures.
- `src/control.rs`: successors, depth-first reverse postorder and reachability of the
  block graph, with the proof that the reverse postorder lists exactly the reachable
  blocks once, the entry first.
- `src/func/`: per-function code generation: locals, each instruction kind, and the
  structured control flow (blocks, loops, ifs and branch tables).
- `src/allocator.rs`, `src/list.rs`, `src/seq.rs`, `src/string.rs`: the runtime
  helper functions that compiled modules carry (the bump allocator, list and string
  helpers).
- `src/module.rs`, `src/sections.rs`, `src/assemble.rs`: signatures, the type
  section, the module's sections and their assembly into the final binary.
- `app/lib.rs`: the error type with `std::error::Error` and `Display`.
- `tests/`: the allocator's behaviour run in wasmtime, whole modules compiled and run,
  and the properties of ordering, layout and signatures on concrete values.
