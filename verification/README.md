# wtga

The back end of the Windows To Go Assistant: it deploys a Windows image to
a USB drive, repairs boot files, reads disk health (SMART), benchmarks
drives and, on macOS, prepares the tools and the target disk.

## Layout

- `src/` is the verified library (Verus). It holds the decisions and the
  text the program works with: partition scripts, boot-file commands, the
  order of the write steps (a state machine from step and outcome to the
  next action), parsers for DISM, diskpart, smartctl, diskutil and
  PowerShell output, the merging rules of the disk diagnostics, the task
  registry and the macOS administrator session. Every public function
  states its result in `ensures`; the laws that span functions are public
  proof functions (`law_*`, `lemma_*`).
- `app/` is the command-line program around it: it runs the external
  tools, reads and writes files, talks to the operating system and prints
  JSON. It hands the library plain values and performs the actions the
  library chooses.
- `tests/` runs the library on concrete values.

Calls into outside crates (`regex`, `encoding_rs`) and into parts of std
that vstd does not specify go through a few trusted wrappers; each says in
its doc comment what it assumes of the call.
