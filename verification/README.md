# loco-cli

A command-line client for the [Loco](https://localise.biz) translation
management API, with its core written in Verus.

- `src/` is the verified library: parsing of `LOCALE=TEXT` arguments, the
  resolution of settings (flags, environment, `.loco.toml`), the requests
  behind every API operation, the classification of API answers, the exit
  codes, the order of the calls behind `strings add`, `strings set` and
  `assets create` (step functions that the program drives), the config
  file lookup, and the lines that commands
  print. Each function carries a
  contract, and the laws of the library (key resolution order, path
  templates, base URL normalization, progress bounds, ...) are proof
  functions.
- `app/` is the program around it: argument parsing with clap, HTTP with
  reqwest, JSON and TOML with serde, terminal output, prompts and files.
- `tests/` exercises the library on concrete values.
