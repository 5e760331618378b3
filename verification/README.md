# access_os_installer

The decision logic of the access-OS installer, written in Verus with its
behaviour stated in contracts and proved.

## Layout

- `src/installer/`: the shared backend. Storage planning (`storage_plan`,
  with its laws in `layout_laws`), disk and partition handling
  (`disk_manager`), package profiles (`config_engine`), the commands of an
  install as plans of steps (`commands`, `install_worker`).
- `src/cli/`: the line-oriented wizard as a state machine: each screen takes
  the wizard state and a line of input and returns the next state and a
  reply that says what to print, ask or run next.
- `src/gui/`: the rules behind the graphical wizard's pages (validation,
  visibility, countdown, retry controls, messages).
- `src/system.rs`: the machine's memory size through `sysinfo`, and the swap
  size suggested from it.
- `app/`: the command-line program that reads input, runs the plans the
  library produces and talks to the system.

Nothing under `app/` is verified; it hands plain values to the library and
carries out what the library returns. It runs each plan step, reports what
became of it, and lets the library decide (`installer::outcome`) whether the
plan ends and with which error.

There is no graphical front end here: `app/` holds the line-oriented wizard
only. The rules of the graphical wizard's pages are verified in `src/gui/`,
but the GTK window that would use them, and with it the accessibility setup
of its environment (`GTK_A11Y=atspi`), is not part of this project.
