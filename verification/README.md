# hamid-mahdavi-client

A Windows launcher for the mhr-cfw VPN: it finds or installs Python,
downloads and sets up the project, stores the credentials, starts the VPN
process, sets the system proxy, and writes a failure report on request.

## Layout

- `src/` — the launcher's logic, verified with Verus:
  - `text.rs` — characters, trimming, decimal numbers, and their lemmas;
  - `paths.rs` — where the project, markers, logs and credentials live;
  - `config.rs` — the credentials as `config.json` holds them, the install check;
  - `credentials.rs` — the per-user credentials store (through `serde_json`);
  - `python.rs` — version parsing, the minimum version, the search for an interpreter;
  - `runner.rs` — the capped log of the VPN process's output;
  - `gui.rs` — the window as a state machine;
  - `worker.rs` — the install and connect jobs as a state machine;
  - `report.rs` — the text of the failure report;
  - `download.rs`, `project.rs` — the decisions of a download and of extraction.
- `app/` — the Windows program around it: the window (native-windows-gui),
  processes, files, HTTP, the registry.
- `tests/` — tests of the library.
