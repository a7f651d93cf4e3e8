# http_imager

Verified core of a Windows PE imaging tool that downloads a WIM image over
HTTP, applies it to the `W:` drive, makes it bootable and stages extra files.

- `src/text.rs` — decimal formatting and parsing, prefix tests, replacement.
- `src/settings.rs` — `Settings.ini` lookups through `configparser`.
- `src/system.rs` — product identity, network addresses and disks, and the
  choices made from them (status bar, image location, placeholders).
- `src/procedure.rs` — the installation run as a state machine of actions
  and events.
- `src/imaging.rs` — the form: setup, starting an installation, reactions
  to statuses, layout, waiting for the network.
- `app/` — the window, threads, processes, files and network access.
