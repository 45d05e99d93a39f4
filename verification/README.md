# lsenext

The verified core of a Windows Explorer extension that creates symbolic
links, hard links and directory junctions from a "picked" source.

- `src/` is the library, checked by Verus: a model of Windows path syntax
  (`path`), link planning (`links`), the mount-point reparse buffer of a
  junction (`junction`), the picked-source state and the classic menu
  registration (`state`), the Explorer command tree (`menu`), the helper
  program's command line and scripts (`helper`), the setup program's
  payload format (`setup`), and the helper's debug commands: the
  diagnostics report and the native-menu repair, one step at a time
  (`diagnostics`). `text` holds the character-level helpers.
- `app/` is the unverified shell around it: the helper program's `main`,
  file-system, registry and COM work, the JSON state file, the setup
  program, the shell extension's exported entry points, and the probes,
  PowerShell runs and file writes of the diagnostics and the repair.
- `tests/` exercises the library on concrete values.
