# rorm_lib

The verified core of an ORM and of its tooling, written in Verus.

- `src/` is the library. Every function there carries a contract that Verus proves;
  the public proof functions (`lemma_*`) state properties that relate several functions.
  Its only trusted item is the wrapper around `String::make_ascii_lowercase` in `naming`.
- `tests/` runs the library on concrete values.
- `app/` holds what Verus does not check: the serde forms of the example forum server's
  requests and models, the replacement of `Self` in analyzed field types, and the token
  output of the derive macros, which names its generated items through `rorm_lib::derive`,
  and the forum server's test client, which runs the HTTP requests that
  `rorm_lib::test_client` decides.
