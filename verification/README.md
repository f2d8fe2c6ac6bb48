# horto-os-ui-tui

Terminal UI for setting up a Horto box, either on the box itself (embedded)
or from a PC over SSH (`--remote Host`).

- `src/` is the verified core, checked with Verus: the tab order and panel
  texts (`tabs`), the probe model (`probe`), modal key handling (`prompt`),
  the UI state and its key table (`app`), what the UI does with the results
  of probes, SSH runs and local steps (`flow`), the local Overview
  (`overview`), the status line, log pane and help texts (`view`),
  command-line parsing (`cli`), dialog placement (`layout`), time stamps
  (`clock`), string helpers (`text`) and cross-cutting properties (`laws`).
- `app/` is the program: terminal setup, the event loop, drawing with
  ratatui, and the calls into the setup engine and remote runner of
  `horto_os_ui_shared`.
- `tests/` exercises the library on concrete values.

The UI stays on the terminal's alternate screen for the whole session: the
y/N questions (destructive step, token save, reboot) and the OpenSSH Host
of the SSH tab are dialogs of the UI, and SSH/sudo passwords go to the
system `SSH_ASKPASS` program.
