# TunnlTo

TunnlTo controls which Windows applications use a WireGuard tunnel. It drives the WireSock VPN
client: it writes the client's configuration file, runs the client, follows its output and stops
it.

- `src/` is the library: the decisions and the data, verified with Verus.
  - `tunnel` and `config`: a tunnel, and the configuration file that is written for it;
    `config_laws`: how the file reads
  - `state`: the state that the window shows, and the log
  - `enable`: enabling a tunnel, event by event
  - `process`: the job that ends the client with the application
  - `wiresock`: finding, installing and stopping the client; `json`: its installer's report
  - `tray`: the tray menu and the user's settings
  - `text`: searching text, decimal numbers
- `tests/` holds its tests.
- `app/` is the desktop application around it: the window, the tray, files, processes and the
  registry. It builds on Windows only, with Tauri.
