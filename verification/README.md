# VoidGuard

A local Windows security and system-monitoring tool: processes, ports,
firewall rules, DNS, services, startup entries, file integrity, risk
correlation, scans, a security score and an append-only audit trail.

## Layout

- `src/` — the verified library (Verus). Everything the tool decides is
  here, with `requires`/`ensures` contracts: which ports are listening and
  how risky they look, which firewall rule a port action touches, the
  strict IPv4 and GUID parsing behind DNS changes, startup-entry
  classification and change tracking, service start codes, scan step
  selection and findings, the security score and its reasons, retention
  windows, and the texts of every audit entry and event.
  `src/laws.rs` states and proves the properties that span several
  operations (for example: every address the library renders passes its
  own IPv4 check; distinct port requests never name the same firewall
  rule; more findings never raise the score).
- `tests/` — executable tests of the library on concrete values.
- `app/` — the command-line program around the library: the SQLite
  database, Windows APIs (IP Helper, Windows Firewall COM, Service
  Control Manager, registry, Task Scheduler), `sysinfo` metrics and the
  `notify` file watcher. It reads the system, hands plain values to the
  library and stores or prints what comes back.

The calls into `chrono`, `uuid` and `sha2` that the library makes go
through small trusted wrappers in `src/clock.rs`, `src/ids.rs` and
`src/files.rs`, each documented with what its contract assumes.
