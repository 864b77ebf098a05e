# jiff_chrono_conversions

Conversions between `chrono` 0.4 (with `chrono-tz` 0.10) and `jiff` 0.2 values, verified with
Verus.

- `src/civil.rs`: the mathematical model — dates, times of day and instants as integers, and
  the ranges each crate accepts.
- `src/chrono04.rs`, `src/jiff02.rs`: the values of each crate, held as the numbers and names
  the crate exposes and made only through the crate's own constructors (called behind
  wrappers whose contracts restate the crates' documented behaviour).
- `src/chrono04_jiff02/`: the conversions, as implementations of `ToJiff`, `ToChrono`,
  `TryToJiff` and `TryToChrono`, each with a contract stating its result and when it fails,
  and the round-trip laws as proof functions. The two conversions from `chrono_tz::Tz` (and
  date-times in it) to `jiff` look the name up in the time zone database `jiff` finds on the
  machine: whether they succeed depends on that database, and their contracts state what
  holds of every zone found (it is named, after the name looked up, ignoring ASCII case).
- `src/error.rs`, `src/text.rs`: the error type and the building of its messages.
- `app/`: bridges from and to the real `chrono`/`jiff` types, and an error type implementing
  `std::error::Error`.
