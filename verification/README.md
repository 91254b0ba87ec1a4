# System Repair Toolkit

An interactive command-line toolkit that diagnoses and repairs common
problems on Windows and Linux: Bluetooth, WiFi, audio, USB, DNS, disk space,
CPU and memory load, temporary files, startup programs, RAM health, and a menu
of advanced platform commands (SFC, DISM, chkdsk, fsck, ...).

## Layout

- `src/` is the library, written in Verus and verified. It holds everything
  that decides or computes:
  - `types` — the catalogue of issues and advanced commands, which platforms
    run each command, and the per-platform command lists;
  - `config` — default configuration, validation, the log filter it selects;
  - `errors` — the repair error type and its messages;
  - `commands` — command lines, the errors that failed commands become, and
    whether an advanced command runs on the host;
  - `probes` — what the operating system's tools report, read from their
    output;
  - `menu` — reading menu answers and yes/no prompts, and message texts;
  - `plan` — which repair routine answers each issue;
  - `steps` — the decisions inside the repair routines: when a missing
    device ends a repair, and the step function of the Bluetooth repair;
  - `ranking` — the processes that use the most memory;
  - `text` — verified string primitives (trim, search, decimal numbers).
- `app/` is the program around the library: the menus, the terminal output,
  the configuration file, and running the system tools.
- `tests/` holds the tests of the library.
