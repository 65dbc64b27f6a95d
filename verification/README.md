# shacker

The screens of a small capture-the-flag server that players and admins reach over SSH,
as a library verified with Verus.

- `src/` is the library: what each key press does to a screen (`admin::login`,
  `admin::flags`, `client::register`, `screens::register`, `screens::home`), which screen or
  which piece of database work follows, what the screens show (hints, tab titles, flag
  previews, banner size), and the decisions of the user database (`users`).
- `app/` runs it: it reads the terminal, draws the screens with ratatui, and reads and writes
  the SQLite user database.
- `tests/` runs the library on concrete inputs.
