# rio_notifier

Desktop notifications for the Rio terminal, written in Verus.

- `src/` is the verified library: what a notification says (`content`), the
  D-Bus conversation of one notification as a state machine (`session`) and
  what holds of it over any run (`session_laws`), posting and withdrawing
  (`handle`, `channel`, `hooks`), the bounded wait at exit (`shutdown`), the
  Windows show/withdraw race (`toast`) and the macOS identifiers
  (`identifier`).
- `app/` performs the work the library asks for: the D-Bus calls, the
  notifier threads, sleeping at exit, and the macOS and Windows APIs.
- `tests/` runs the library on concrete cases.
