# astraos

The logic of the AstraOS desktop applications, verified with Verus.

- `src/` — the verified library. Each module states its behaviour in
  `requires`/`ensures` contracts over mathematical models (`Seq`, `Set`,
  spec functions and views):
  - Astra VM: `vm_config` (VM definitions, registry, on-disk layout, ids),
    `qemu` (QEMU binaries and command lines), `disk`, `qemu_downloader`,
    `qmp` (QMP messages and replies), `stats`, `capture`, `vm_manager`
    (VM lifecycle and the table of running VMs), `vm_ui` (the window's
    header, VM list, detail pane and selection rules).
  - AstraPass: `vault`, `strength` (master password rating and checks),
    `digest` (SHA-256, hex, random bytes).
  - Shell: `hyprland` (IPC events), `lock`, `onboarding`, `welcome`,
    `shell_ui` (taskbar choice, bar, launcher, dock), `desktop_config`,
    `clock`.
  - Apps: `tictactoe`, `photos`, `screenshot`, `weather`, `settings_ui`.
  - Shared: `text` (characters, search, trimming, decimal and hex text),
    `paths`.
- `tests/` — tests of the library on concrete values.
- `app/` — the command-line front end: files, processes, sockets, HTTP and
  the terminal. It hands every decision to the library.

Calls into `sha2`, `hex`, `getrandom`, `which`, `chrono` and parts of `std`
go through small trusted wrappers whose doc comments say what is assumed of
them.
