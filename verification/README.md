# nganjo

A keyboard-driven system console for the terminal: a file manager, a
process list, systemd services, a package-manager front end, mounted disks
and user accounts, each on its own panel.

The library under `src/` holds the console's logic, verified with Verus:

- `app` — the console's state, the key map (`App::handle_key`) and the
  methods that take in the results of the work a key asked for.
- `effect` — that work, as data (`Effect`), and what comes back from it.
- `panels/` — the six panels: listings, cursors, selection and clipboard,
  the parsers of `systemctl`, package-manager, `/etc/passwd` and
  `/etc/group` output, and the reports of each command.
- `data` — the figures taken from a sampling of the machine.
- `view` — what the screen shows, as pieces of text with a palette tone.
- `laws` — properties that span several keys or events.
- `text`, `sort` — character-level text handling and a stable sort.
- `outside` — the calls into `std` and outside crates that the library
  trusts, each with the contract it is trusted for.

`app/` is the program around it: terminal set-up (`crossterm`), sampling
(`sysinfo`), the file system and system tools, and painting (`ratatui`).
