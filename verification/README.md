# crazyflie_agent_cli

A command-line companion for Crazyflie drones meant for AI agents: a daemon
keeps the radio connection open and streams console and log data as tagged
lines, while short-lived client commands talk to it over a Unix socket; flash,
scan, reset and recover work on their own.

The library in `src/` is verified with Verus:

- `text` — decimal rendering and the integer syntax of `str::parse`, with the
  law that parsing a rendered integer gives it back.
- `value` — typed values, their labels, text and parsing.
- `protocol` — requests and responses between client and daemon.
- `handler` — the daemon's handling of one request, as a state machine whose
  steps name the calls into the Crazyflie; laws: exactly one reply per
  request, termination, a new log block replaces the old one, read-only
  parameters are never written, list replies cover the listed names.
- `cli` — commands, the request sent for each, and how responses are shown.
- `output` — tagged output lines.
- `session` — the session socket's name and how clients find it.
- `bootloader` — bootloader packets, safelink URI, the bootloader address,
  flashing arithmetic.
- `toc_cache` — where parameter and log tables are cached on disk.

`app/` holds the program around it: argument parsing (clap), JSON on the
socket (serde), the radio (crazyflie-lib, crazyflie-link, cfloader), files and
the terminal.
