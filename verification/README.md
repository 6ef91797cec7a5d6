# scratch_test_spec

Test specifications for Scratch programs: checks on what a program prints when it runs
with given inputs, and lints on the blocks it is made of. A check selects one printed
value, transforms it (trim, uppercase, extract the one number), and judges the result by a
criterion; checks and lints combine with `All`, `Any` and `Not`, and a failure explains
itself in words.

## Layout

- `src/` is the library, written in Verus. Its functions carry contracts that Verus
  proves; `src/laws.rs` states the properties that relate several functions (how `All`,
  `Any` and `Not` behave, that trimming is idempotent, what a block-count lint decides,
  and so on). A few functions are trusted rather than proved, each a thin wrapper around
  one outside function with its contract in a doc comment: in `src/pattern.rs`,
  `Pattern::compile` and `Pattern::find_all` (the `regex` crate); in `src/text.rs`,
  `push_char`, `is_whitespace`, `char_uppercase` and `debug_str` (std's `String::push`,
  `char::is_whitespace`, `char::to_uppercase` and `str`'s `Debug` rendering).
- `tests/` runs the library on concrete values.
- `app/` is ordinary Rust around the library: reading and writing specifications as JSON
  (serde, schemars, utoipa), running programs in the interpreter, and the floating-point
  comparisons that the library leaves to its caller (see `src/queries.rs`).
