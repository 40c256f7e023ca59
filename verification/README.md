# bass-rs

Safe bindings for the BASS 2.4 audio library and its BASS_FX add-on, whose
native libraries are loaded at run time.

- `src/` is the verified core: error codes and errors, the option types and
  the flag words they produce, device and channel descriptions, effect kinds
  and their checks, path encoding, the decoding of text and tag lists that
  BASS reports, the BASSMIDI boundary, and the argument handling of the
  command-line tool. Its contracts and laws are proved.
- `app/` is the native layer and the `bass-cli` tool: it loads the libraries
  with `libloading`, calls their entry points, runs the callbacks, and hands
  the results to the verified core.
- `tests/` exercises the verified core.
