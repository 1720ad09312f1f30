# clang

A somewhat idiomatic Rust wrapper for libclang, whose decisions are verified with Verus.

## Layout

- `src/` is the verified library. It holds what the wrapper decides about the values libclang
  reports: the kinds and their raw codes (`kind`, `ffi`), the option sets and their bit flags
  (`options`, `completion::CompletionContext`), the error codes (`error`), the builders for
  parsing and code completion (`translation::Parser`, `completion::Completer`), the ordering of
  completion strings (`completion`), the reading of template arguments, versions and platform
  availability (`entity`), the size and layout queries of types (`types`), comments and the
  conversion of libclang's comment trees into them (`documentation`), the values of C integer
  literals (`literal`), and the search for C declarations and preprocessor definitions
  (`sonar`).
  Each function states its result in its contract, and the laws of the library (round trips
  between kinds and codes and between option sets and flags, the order of completion strings,
  the uniqueness of found declarations) are proof functions.
- `app/` makes the calls into libclang through `clang-sys`, which all go through unsafe code, and
  hands what libclang reports to the library.
- `tests/` runs the library on concrete values.
