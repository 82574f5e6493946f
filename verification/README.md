# scrypto_import

Generates the Rust bindings of a blueprint component from its ABI: a struct
that holds the component's address, one declaration per struct or enum that
the method signatures mention, and an `impl` block whose methods call the
component through `scrypto::call!`.

- `src/` is the verified library (Verus). `abi` models the ABI, `native`
  renders ABI types as Rust types with the declarations they need, `import`
  renders the whole binding, `ident` decides which names are identifiers
  (from the Unicode identifier properties and the keyword list) and `text`
  holds the small text utilities. The generated code is source text whose
  every character is fixed by the contracts, except the escape codes inside
  string literals, which are what `char::escape_debug` yields.
- `app/` is the unverified front end: the `import!` expansion (reads the
  ABI file named by a string literal, parses its JSON, tokenizes the
  generated text) and the `show` command line.
- `tests/` runs the library, comparing generated code token by token.
