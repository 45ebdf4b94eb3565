# progcalc

A programmer's calculator for the terminal: a 64/32/16/8-bit word shown in
hexadecimal, decimal (signed), octal or binary, with arithmetic, bitwise,
shift, rotate, negate and complement keys, an expression history and a bit
view.

- `src/radix.rs` — reading and writing numbers as digit strings, grouping by four.
- `src/state.rs` — the calculator state (`CalcState`), its model (`CalcModel`) and
  every key's effect.
- `src/frontend.rs` — the front panel (`App`): button names, keys, mouse
  clicks, the expression history and the button colouring rules.
- `src/laws.rs` — properties proved across operations.
- `app/` — the terminal program: crossterm events in, ratatui drawing out.
- `tests/` — tests on concrete values.
