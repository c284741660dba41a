# Rusty Butter Knife

A Windows tool that removes optional NVIDIA driver components (telemetry,
updaters, overlay and streaming helpers, opt-in extras) after a driver
install. It scans known install roots, matches files, services, scheduled
tasks and processes to a catalog of components, and removes, stops or
disables what the selected components own. Without `--execute` it only
reports what it would do.

## Layout

- `src/` is the library, verified with Verus. It holds every decision the
  tool makes: command-line parsing, the component catalog and selection,
  path, service, task and process classification, the deletion safety
  gates, the TrustedInstaller relaunch protocol (child arguments, poll
  judgement, outcome), logging and report text, and the status file.
  - `laws.rs`, `handoff.rs` and `status_file.rs` state properties of the
    library as a whole as proof functions: selection is authoritative,
    unknown targets fail closed, dry runs change nothing, a command line
    runs dry unless it asks for execute mode, the wait bound stays in range,
    rejected arguments are never dropped, the TrustedInstaller wait ends on
    an abort or at its bound, stages run only when their switches ask for
    them, the switches forwarded to the elevated
    child read back as the parent's choices and selection, and the status
    file reads back the status and exit code written to it.
  - `inspection.rs` runs an inspection pass through `note_container` and
    `note_module` and proves that across the passes of a run every running
    container and loaded telemetry module is recorded once.
  - `json.rs` proves that escaped JSON strings decode to what was escaped
    and that a field of a built object is found again; `util.rs` proves
    that a quoted argument splits back into itself under the Windows
    command-line rules and that CSV fields read back (quoted round trip,
    plain comma split); `logging.rs` proves that console line-ending
    normalization is idempotent.
- `app/` is the program around the library: Win32 calls (services,
  processes, Task Scheduler COM, file system, console), the global run
  state and the main flow. It performs the I/O and hands plain values to
  the library's decisions.
- `tests/` exercises the library on concrete values.
