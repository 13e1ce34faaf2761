# jellium

The logic of a desktop client for Jellyfin, verified with Verus: what the
presence card shows and when it is sent, which consumer an input event reaches,
how the shell overlay connects, focuses and edits, when a surface is configured
and what is written to it, how a popup menu opens, scrolls and closes, and where
the embedded browser is in its life.

- `src/` is the library. Every function states its result in `ensures`; laws that
  span functions are public proof functions beside them. `src/json.rs` holds what
  is taken from `serde_json`, `src/text.rs` and `src/input/key.rs` what is taken
  from the standard library on trust.
- `tests/` runs the library on concrete values.
- `app/` is the program around it: command line, sockets, threads, GPU. The
  browser engine, the widget toolkit and the Cocoa calls stand behind traits.

Quantities that the program computes in floating point (a playback rate, a
display scale, a colour channel) enter the library as integers or as the bits of
the number.
