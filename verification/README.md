# tensorforge

The front end and the tensor object system of the TensorForge `.tens`
language, written in Verus. Every function in `src/` carries a contract
that the verifier proves, except four trusted wrappers over std whose
contracts are stated, not proved: collecting characters into a `String`,
`char::is_alphabetic`, `char::is_numeric` (exact on ASCII; the Unicode tables
beyond ASCII are named, not restated) and the `{:?}` text of a string.

## Layout

- `src/text.rs`, `src/error.rs` — strings as character sequences, the error type.
- `src/notes.rs`, `src/lexer.rs`, `src/parser.rs`, `src/ast.rs` — note-block
  stripping, tokenizer and precedence-climbing parser; each is proved to
  compute exactly its specification (`strip_spec`, `lex_spec`, `parse_spec`).
- `src/number_text.rs` — number literals written back as `f64`'s `Debug`
  writes them, for the tokens named in parse errors.
- `src/tensor.rs` — tensor expressions with order and dimension, the checked
  constructors, and conservative symmetry inference.
- `src/semantics.rs`, `src/exactness.rs` — a matrix meaning for second-order
  expressions, under which symmetry inference is sound and the structural
  rewrite rules of the simplifier are exact.
- `src/simplify.rs`, `src/rules.rs` — the structural simplifier and its rule sets.
- `src/render.rs`, `src/blocks.rs`, `src/components.rs` — LaTeX rendering of
  tensor expressions and of component blocks.
- `src/instantiate.rs`, `src/sums.rs` — expansion of set sums and the `Sum`
  builtin.
- `src/calls.rs`, `src/operators.rs`, `src/declarations.rs`, `src/checks.rs`,
  `src/indexing.rs`, `src/subjects.rs`, `src/metadata.rs` — the decisions of
  the interpreter: which builtin a call reaches, what an operator does between
  two kinds of operands, declarations and index literals and their errors,
  display modes and labels.
- `src/run.rs` — running a program: the action of each statement form, the
  bookkeeping of names on assignment (labels, definitions, derived names),
  and strict or lenient runs: a strict run stops at the first failure, a
  lenient one records every failure in order.
- `src/ode.rs` — classification summaries, method selection and the text of
  ODE solution steps.
- `src/cli.rs` — command-line arguments.
- `app/main.rs` — the `tensbook` command: file I/O around the library.

Scalar expressions and everything numeric (evaluation, plotting, the scalar
simplifier, derivatives and integrals) work on floating-point numbers and are
not part of this crate; tensor expressions refer to their scalars by id.
