# bflib

The library behind a DCS World mission: its default configuration (what each
side may deploy, which vehicles carry cargo, how many lives each vehicle type
draws from), the log level and log buffering of its background writer, the
steps of loading the configuration file, and what the server's player hooks
answer.

- `src/` is verified with Verus: `kinds` (sides, life types, vehicles),
  `tables` (the `fxhash` tables the configuration keeps), `cfg` (the
  configuration types and their defaults, with the proof that the default
  configuration is consistent), `load` (configuration file name and loading
  steps), `logging` (log level, log buffer) and `hooks`.
- `app/` is the Lua module around it: hook registration, the background
  thread, file I/O and the serde forms of the configuration.
- `tests/` runs the library on concrete values.
