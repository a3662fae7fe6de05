# razer-hid

A command-line tool and interactive menu for Razer mice and keyboards over
USB HID (DPI, lighting, polling rate, battery, profiles), with its logic in a
library verified by Verus.

## Layout

- `src/` — the verified library.
  - `report` — the 90-byte report: field layout, wire bytes, XOR checksum.
  - `commands` — request builders and response parsers for DPI, device
    info, lighting (extended and standard matrix), polling rate and power.
  - `registry` — device definitions and lookup by product id.
  - `transport` — the 91-byte feature frame, the interface order to probe,
    and what a response means for a pending command (retry on busy,
    accept, fail).
  - `number`, `text` — number parsing with the standard library's grammar
    and errors; building text character by character.
  - `cli` — the front end's logic: argument parsing and the command it
    asks for, device auto-detection, profiles (flags, names, files,
    application plans), the interactive menu's states and screens, the
    text the commands print and the texts of refused input.
- `tests/` — tests run against the compiled library.
- `app/` — the program: HID I/O through hidapi, device definitions (TOML)
  and profiles (JSON) through serde, the terminal, and the command dispatch.
