# frippy

The plugins of an IRC bot (counters, factoids, an Ollama chat bridge, quotes,
reminders and tells), written as a Verus library whose rules are proved.

- `src/` is the verified library. Each plugin decides what to do with a
  message as a function from plain values to a reply or a next step; database
  rows, script results and HTTP replies come in as arguments. `text.rs` models
  strings as `Seq<char>` (byte lengths, cutting at character boundaries,
  splitting, joining, integer text); `datetime.rs` holds the calendar arithmetic
  and the text `time` and `chrono` give a date and time. The factoid helpers
  call `time`, `serde_json` and `reqwest`'s header and method parsers through
  small trusted wrappers, and decide everything around those calls.
- `tests/` runs the library on concrete values.
- `app/` is the program around it: IRC connection, configuration files,
  MySQL queries, the Lua interpreter and HTTP calls.
