# freepalette

A local-first command palette: providers answer a query (configured and
Start Menu apps, a calculator, shell commands, clipboard history), the results
are ranked, and the selected one is executed. A daemon keeps the state and
answers requests from clients over a local connection.

The library under `src/` is written in Verus; every function in it is
verified against its contract.

- `text`, `fuzzy`, `ranking`: string helpers, fuzzy scores, and the ranking
  of provider results.
- `plugin_api`, `registry`, `providers/`: the provider interface, the
  registry, and the built-in providers.
- `config`, `hotkey`, `daemon`, `ipc`: configuration, the global hotkey
  binding, the daemon state and its request protocol.
- `palette`: the palette's visible state, in process or connected to a
  daemon.
- `cli`, `console`: argument parsing and the text the command-line tools
  print.
- `autostart`, `icon`: the startup shortcut location and the app icon.

Outside work (processes, files, the network, the clipboard) is never done in
`src/`: the library hands it back as a value, and `app/` performs it and
reports the outcome. `app/` holds the `freepalette` and `freepalette-daemon`
command-line programs.

The calculator evaluates with exact fractions rather than floating point.
Every number it reads, and every intermediate numerator and denominator,
must stay within 10^18 in magnitude; beyond that it answers "number is too
large".
