# dsh_desktop

The verified core of the DSH desktop shell, a Tauri application that wraps the
DSH web UI and runs the DSH service as a bundled Node process.

- `src/` is the library, verified with Verus:
  - `config.rs`: the application settings, their defaults and where the
    settings file lives;
  - `state.rs`: the shell's settings state and the rule for accepting new
    settings (port 0 or 1024..=65535, and every directory named must exist);
  - `port.rs`: the search for a free port as a step machine (try the preferred
    port and up to 100 after it, then ask the operating system), with its law;
  - `paths.rs`, `sidecar.rs`: paths as an anchor (prefix and root) and names, the bundled resources,
    the service's launch and the service address in its output;
  - `service.rs`: the steps of waiting for the service and of stopping it,
    and reading child process ids from `pgrep` output;
  - `shell.rs`: the working directory, the writable-data-directory check
    before start-up, window-close and tray decisions;
  - `updater.rs`: the status text of an update check.
- `app/` is the Tauri application around it: windows, tray, plugins, the
  settings file, port binds and the service process.
- `tests/` exercises the library.
