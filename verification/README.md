# isit

Checks that a program relies on, each as a function that tells whether the
check holds (`*_condition`) and one that demands it of its caller
(`assert_*`):

- boolean conditions: all, any or none of a fixed number of them;
- the size and alignment of types, alone, against each other, against a
  pointer (`usize`) and against a byte;
- niches: whether `Option` of a type fits in the type's own size, and
  whether a type is zero-sized or can never be constructed.

The library under `src/` is written in Verus; every function there is proved
against its contract. `src/const_assert.rs` holds the assertion grammar of the
`const_assert!` macro (`any`, `all`, `none`/`not` and nesting) and the code it
expands to. `app/` is the token-level edge: it reads the macro input with
`syn`, hands the library plain values and turns the code it writes back into
tokens, and finds how the using crate names `isit`.
