# aa_headunit_diagnostics

The verified core of a diagnostics and head-unit tool for Android Auto on a
Raspberry Pi: the decisions the tool makes, stated as Verus contracts and
proved.

- `src/` — the library, verified by Verus:
  - `settings`, `gesture_settings`, `platform` — the persisted operator
    settings, their stored form, and the laws relating saving and loading;
  - `cli`, `credentials`, `error` — reading and validating the command line,
    the `credentials` subcommands, and each failure's exit code and text;
  - `supervisor` — the reconnect loop's retry policy and its laws;
  - `probe`, `session`, `connection_state` — the protocol session's
    experiment switches, ping schedule, message routing, channel states and
    replies;
  - `wireless` — the access point's configuration and the Bluetooth handoff
    checks;
  - `ui`, `browser`, `order`, `host`, `text` — the on-screen session's
    decisions, the credentials file picker, text ordering and sorting, host
    integration, and the text handling everything else is built on.
- `tests/` — tests of the library on concrete values.
- `app/` — the command-line program around the library: process
  capabilities, the settings files' TOML form, Ctrl-C handling, the MTP
  automounter switch and the wireless access point.
