# gaze

The decisions behind face-recognition login on Linux, verified with Verus: what the settings
resolve to, which camera a source stands for, when a frame shows a usable face, how an
enrollment or an authentication ends, what a PAM module answers, and when a stored keyring
credential is released.

- `src/` is the library. Everything in it is verified; the few calls into other crates stand
  behind wrappers whose doc comments say what is taken from them.
- `app/` is the program around it: the command line, the bus, cameras, PAM and the TPM.
- `tests/` runs the library.

Floating-point numbers appear in the library as the bit patterns of IEEE 754 numbers
(`number.rs`): they are compared and rounded there, and computed with only in `app/`.
