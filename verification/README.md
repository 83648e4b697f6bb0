# rlbot_gui

The core of the RLBot GUI, verified with Verus: the settings it keeps in its INI
file (match, mutators, launcher, bot folders, looks, tabs), story-mode
bookkeeping, the in-GUI console and the capture of process output, bot and
script bundles read from `.cfg` files, the python packages they need, keeping
the bot pack current from incremental patches, reading and extracting zip
archives, making new bots from templates, and the protocol spoken with the
python match handler.

- `src/` is the library. Its functions carry contracts that Verus proves; calls
  into other crates (`configparser`, `serde_json`, `regex`, `flate2`, `base64`,
  `imghdr`, `shlex`, `ansi-to-html`, `sanitize-filename`, `rand`, `zip`) and a
  few `std` functions go through small trusted wrappers. Each wrapper's doc
  comment says what its contract claims of the outside function and what it
  leaves unsaid; where a result is too long to state (a parse, a hash, a
  compressed stream), the contract names it and the library's own contracts are
  stated over that name.
- `app/` is a command-line front end: it reads and writes files, runs python,
  RLBot and the match handler, scans folders with `glob`, looks at running
  processes with `sysinfo`, and turns library values into JSON with `serde`.
  Run without a command, it reads commands line by line.
- `tests/` runs the library on concrete values.
