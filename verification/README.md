# rustbook

Exercises from learning Rust, turned into a library whose logic is verified with Verus,
and a command-line program around it.

## Layout

- `src/` — the verified library, one module per topic:
  - `text`, `minigrep`, `minigrep_env` — splitting text into lines as `str::lines` does and
    the line search of the `minigrep` tool, with its command-line configuration.
  - `parse` — `str::trim` and decimal parsing of `u32` and `i32` as `from_str` does.
  - `guessing` — the guessing game's decisions and its random secret (through `rand`).
  - `inventory` — the shirt store: the most stocked color, counted in a `HashMap`.
  - `title` — the `<title>` of an HTML page (through `regex`).
  - `esp32` — the Wi-Fi configuration check, the HTTP body printer that never cuts a UTF-8
    character, and the serial echo (its line buffer is a `heapless::Vec`).
  - `adder`, `restaurant`, `coins`, `shapes`, `generics`, `advanced`, `by_example`, `flow`,
    `ownership`, `appendix` — smaller examples: arithmetic, modules and privacy, enums and
    matching, structs and methods, traits, operator overloading, conversions and options.
- `tests/` — tests of the library.
- `app/` — the command-line program: file and network I/O, the game loop, the async
  demonstrations (`tokio`, `futures`, `tokio-stream`, `reqwest`), and a quota tracker whose
  decision rests on floating point.
