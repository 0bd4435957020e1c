# sctui

A terminal SoundCloud client whose interface logic, request building,
stream handling and sign-in decisions are written in Verus and proved
against their contracts.

- `src/` is the verified library (crate `sctui`): the interface state and
  its key, mouse and tick handlers; queueing and recovery after a failed
  start; fuzzy find; layout hit-testing; SoundCloud response reading and
  request URLs (api-v2 requests never leave the configured origin, library
  pages are never requested twice); which lists the selection fetches;
  HLS manifests, seeking and the segment cache; token precedence and
  refresh; the OAuth callback check.
- `tests/` exercises the library with the real outside crates linked.
- `app/` is the program around it: terminal I/O with `ratatui`, HTTP with
  `reqwest`, audio with `rodio`, the OAuth listener with `tiny_http`,
  Firefox's cookie database with `rusqlite`, and the floating-point
  visualizer.

The outside crates that the library calls (`url`, `chrono`, `ratatui`'s
layout solver, `rand`, `sha2`, `base64`) are reached through small trusted
wrappers whose contracts name or state what those crates return.
