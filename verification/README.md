# cairo-lang-casm

Cairo assembly (CASM) and a builder for it, in Rust verified with Verus.

`CasmBuilder` writes CASM without its user having to think about the allocation pointer (AP), the
sizes of instructions or the distances of jumps: it keeps track of the values of variables while AP
moves, merges the states of branches that meet at a label, and resolves jumps when the code is
built.

## Layout

* `src/operand.rs`, `src/cell_expression.rs`, `src/instructions.rs`, `src/hints.rs`: CASM itself.
* `src/bigint.rs`: the integers of immediates; their arithmetic is that of `num-bigint`.
* `src/ordered_map.rs`: a map that remembers the order of its keys.
* `src/state.rs`: variables, and what is known of them at some line.
* `src/model.rs`: what a builder holds, and what each operation makes of it. An operation `op` asks
  for `can_op`, a predicate of the view of the builder, and takes the view to `op`.
* `src/builder.rs`: the builder. `src/builder/statements.rs` has the statements of CASM source, which
  also record what they add; `src/builder/checks.rs` tests whether an operation can be taken.
* `src/aux_info.rs`: what is recorded.
* `src/semantics.rs`: what expressions and instructions mean on a machine.
* `src/laws/`: what holds of every builder and of the code that it builds.
* `app/`: the macro `casm_build_extend!`, which writes a program into a builder and panics where the
  program is wrong.

## Trust

The crate stands on its own: it uses no other crate of the Cairo project, and its maps are its own,
verified like the rest.

The proofs rest on the contracts of the functions marked `external_body`: those of `src/bigint.rs`,
which call `num-bigint` and `num-traits`, and `vec_into_array` of `src/builder.rs`, which turns a
vector into an array. `src/hints.rs` states that converting a value to its own type changes nothing.
