# suzy

The logic of the Suzy GUI toolkit as a Verus-verified library.

- `src/` is the verified library. Each module states its behaviour in
  `requires`/`ensures` contracts over mathematical models (sequences, maps,
  integers), and the laws that relate several functions are public proof
  functions (`lemma_*`).
- `tests/` runs the library on concrete values.
- `app/` holds what the verifier does not take: reading files, terminal
  calls, floating-point matrices, and the loops that hand OpenGL work to the
  caller as the library's plans say (the render plan, the texture loading
  pass, the changes of mask mode). The OpenGL calls themselves are the
  caller's.

Outside crates: `drying_paint` (the watched cell holding a widget's
selection state), `widestring` (wide strings for the terminal) and `png`
(decoding PNG images) are called from `src/` through a few trusted
wrappers, each documented where it is declared; `libc` is used by `app/`
for the terminal calls.
