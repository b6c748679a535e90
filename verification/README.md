# uwscr_builtins

The builtin functions of the UWSCR script language, with their logic verified by Verus.

- `src/` is the verified library: how builtin arguments are read and coerced, the text
  search, slicing, trimming, tokenizing and replacing routines, text encodings, regular
  expressions, string conversions of Japanese text, the constant tables, the window id
  table, the decisions that window, file and shell builtins make before any system
  call (and what they conclude from what the system reports back), and the control of
  the loops of the script language; and the interpreter's value operations: indexing,
  indexed assignment, array definitions, the dot operator, what a call does, and the
  registered constant tables. Calls into `regex`, `urlencoding`, `htmlentity`, `kanaria` and `base64` stand
  behind small trusted wrappers whose contracts say what those crates do.
- `app/` is ordinary Rust around it: script numbers read as floating-point values, the
  builtins whose arguments are such numbers, starting shell processes and reading the
  environment.
- `tests/` runs the library on concrete values.
