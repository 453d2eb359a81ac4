# wsl_dashboard

The verified core of a dashboard for the Windows Subsystem for Linux.

`src/` is the library, checked by Verus:

- `text`, `number`: character-level text handling (trimming, words, lines,
  searching) and decimal numbers, each specified against a mathematical model.
- `network`: port-forwarding rules (adding, deleting, applying), the host's
  interfaces, the firewall commands, and the search for a distribution's address.
- `api`: requests to the wslui web API, checking and cleaning of answers, and
  fallbacks when a request fails.
- `wsl_config`: the networking mode and sparse-disk setting in `~/.wslconfig`.
- `cli`, `scheduler`, `settings`, `sparse`, `startup`, `tasks`, `about`,
  `time_service`, `constants`: the decisions of the command line, the
  scheduled task, the settings dialog, sparse-disk retries, start-up checks,
  background refreshes and the About page.

`app/` is a command-line front end that performs the I/O (processes, files,
HTTP) and hands plain values to the library. `tests/` exercises the library.
