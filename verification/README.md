# noted

A library for taking and keeping notes, verified with Verus, and a small command line
program around it.

- `src/` is the verified library:
  - `types/` — notes, their create/update/delete requests, reminders and calendar values,
    identifiers, texts and errors, the filters and orders of queries;
  - `db/` — the in-memory database of notes (with generated databases for trying it out);
  - `services/` — a repository that answers queries (filter, order, count);
  - `bins/` — the decisions of the front ends: the command line's options, the
    interactive command line's menus and tag editing, and the graphical front end's
    settings, hotkeys, widget states, application state and database thread;
  - `term_ui/` — the state of the terminal interface: the text input box, the key
    handling of the input screen, and the selectable list.
- `app/` is the command line program (it reads a command and reports the request it
  stands for), the runner of the graphical front end's database thread with its database
  and settings files, and conversions to the `time` and `chrono` crates.
- `tests/` holds the tests.
