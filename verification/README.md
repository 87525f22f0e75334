# rust-cli-release

A distribution runtime for Rust command-line applications, written in Verus.

- `src/` is the verified library: calendar and Cargo version rules, release
  identity checks, SHA-256 verification of downloaded installers, the
  self-update flow as a state machine, ordering of numeric versions, shell
  quoting of command lines, and the naming rules of a private data directory.
  Each public function states its result in its contract, and the `law_*`
  proof functions state properties that span functions: version ordering is a
  total order that ignores leading zeros and one leading `v`; a checksum file
  accepts artifacts of one digest only; a rendered command line reads back
  through a shell as the words that ran; the update flow hands the installer
  over only after it matched its published checksum.
- `app/` performs the operating-system work those decisions call for:
  reading files, downloading, running installers and child programs, locks
  and atomic writes, JSON documents, and environment variables.
- `tests/` exercises the library on concrete values.
