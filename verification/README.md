# glogout

A themable Wayland logout menu whose UI is an HTML page in a WebKitGTK
webview on a `wlr-layer-shell` overlay.

- `src/` is the verified library: the configuration model and its defaults,
  button resolution and action lookup, HTML escaping and page assembly, the
  daemon's line protocol, the overlay's visibility state machine, the choice
  of the menu monitor, the watcher's reload filter, and `glogout init`'s plan.
- `app/` is the program around it: command line, GTK and layer-shell
  surfaces, the webview, the Unix socket, the filesystem watcher, reading
  `config.toml` with serde, and spawning the chosen command.
- `tests/` exercises the library on concrete values.
