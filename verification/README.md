# domectrl

A small program that drives the telescope domes at Pine Mountain Observatory
over a serial line: holding a motor button repeats a one-byte command, and the
controller answers `Y` (open) or `X` (closed).

`src/` is the verified library, written in Verus:

- `protocol` — reading the controller's replies;
- `decimal` — writing and reading numbers in base ten, as the settings form shows them;
- `config` — the settings, their defaults, checks and ranges, and what loading the file ends with;
- `settings` — the settings form: opening it on the settings and applying it back;
- `serial` — the link states, the events of the reading thread and its rule;
- `app` — the program's state and every decision of the main and settings pages:
  the motor hold and its pacing, failures and retries, received data, the buttons.

`app/` is the window, the serial port, the reading thread and the config file
I/O around it (egui/eframe, serialport, rfd, serde_json). `tests/` runs the
library on concrete values.
