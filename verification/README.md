# sysprocalc

A system programmer's calculator: register and bit-group descriptions, binary
and radix formatting, and the integer semantics of the operators and functions
of its expression language. The library is written in Verus; every function in
`src/` carries a contract that Verus proves.

## Layout

- `src/spcregs/` — register descriptors and their validation, the register
  diagram and descriptor tables, binary strings and rulers, the x86 registers
  and name-indexed register tables.
- `src/spceval/` — the operator and function tables of the expression language
  and the integer half of their evaluation, with the order of operators.
- `src/bitgroup*`, `src/bit_group.rs`, `src/sys_bit_set.rs`, `src/bitset.rs` —
  bit groups and bit sets and their validation.
- `src/console.rs` — what a line of console input asks for, where an error
  caret goes, and the register the console shows.
- `src/text.rs` — building strings: padding, decimal and radix digits.
- `app/` — the interactive console (line editing, colour output, logging).
- `tests/` — tests of the library on concrete values.

Floating-point values, which the console shows beside the integer results,
are handled in `app/` only.
