# termino

A terminal stopwatch with laps, countdowns, pomodoro work/break cycling and a
log of past sessions.

- `src/` is the library, verified with Verus. Times are whole milliseconds.
  - `timer.rs`: the stopwatch and countdown state machines. Operations that
    read the clock have twins ending in `_with` that take the reading.
  - `pomodoro.rs`: work/break cycling and the segments recorded.
  - `storage.rs`: session records; saving to the log and reading it back,
    filtered, most recent first.
  - `cli.rs`: the commands, duration parsing (`5m`, `1h30m`, `90s`), and what
    each command asks to run.
  - `display.rs`: duration text, key handling, progress, and the decision
    taken at each turn of the timer loops; each turn has a `_with` twin
    that takes the clock reading.
  - `text.rs`: digits into text.
  - `clock.rs`: readings of the monotonic clock, and the system clock's
    reading as the RFC 3339 timestamp of a session.
- `app/` is the program: argument parsing, the terminal, notifications, and
  the log file (`~/.termino/sessions.json`, or `$TERMINO_HOME`), where
  durations are stored in seconds.
