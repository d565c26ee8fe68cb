# eventline

Turns a one-line description of an event ("Lunch at 1pm", "Welcome Week 9/1-9/8")
into an iCalendar event, and describes such an event back in words.

- `src/` is the library, checked by Verus: the search for a time or date range,
  the decision of when an event starts and ends, the summary left once date and
  time words are removed, the building of the `icalendar` event, and the reading of
  its property lines. `src/laws.rs` holds the properties that span several
  functions.
- `app/main.rs` is the command-line program: it reads lines from standard input,
  runs the time and date parsers of the `eventparser` crate on each, and prints the
  event and its description.
- `tests/` exercises the library on concrete descriptions.

The time and date parsers themselves are not part of this crate; the library
receives what they read as `timing::ParseProbes`.
