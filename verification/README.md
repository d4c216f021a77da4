# gremlh

A library and command-line tool that hunts down "gremlin" characters in text:
bidirectional overrides, zero-width characters, unusual spaces, smart quotes,
homoglyphs and stray control codes. It reports where each one is and can fix
a text by replacing or removing them.

- `src/` is the library, verified with Verus: the gremlin table
  (`definitions`), line scanning and fixing (`scanner`), scan counters
  (`stats`), scan events and binary detection (`processor`), the end-of-scan
  decision (`ui`) and the command-line settings (`args`). Each function states
  what it returns; the proof functions state the laws (a fixed text holds no
  gremlin, fixing is idempotent, a clean line is handed back untouched, a scan
  succeeds only when it found no error and no gremlin, ...).
- `app/` is the program around it: argument parsing, walking directories,
  reading and writing files, and printing.
- `tests/` runs the library on concrete inputs.
