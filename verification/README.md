# learning_rust

A collection of small Rust programs built around a verified library.

* `src/` is the library, checked by Verus: every public function states in
  `ensures` what it returns or changes, and the laws that tie functions
  together (sorting gives a sorted permutation, caret compatibility is an
  equivalence, pages cover every item, a refused registration leaves the
  store unchanged, ...) are public proof functions.
* `app/` is the program around it: sockets, threads, the tokio runtime,
  files, serde, reqwest and everything computed with floating point. It reads
  and writes, and asks the library for every decision. Run a demo with
  `learning-rust <demo>`; without an argument it lists them.
* `tests/` runs the library on concrete values.

The few calls into the standard library that Verus has no specification for
(case mapping, lossy UTF-8 decoding, `{:?}` of a string, `String::push`) sit
behind small wrappers in `src/text.rs`, each documented with what it claims.
