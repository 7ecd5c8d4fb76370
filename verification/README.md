# supuraisu

The core of Supuraisu, a macOS desktop client for Splice, as a library
verified with Verus, with a thin layer of ordinary Rust around it.

- `src/` — the verified library: text and JSON helpers, sample and pack
  summaries, search requests, pack paging and the liked-packs scan, the
  Splice and Auth0 profile documents, GraphQL answers, the ASAR archive
  reader, the refresh-token store, the sign-in state and PKCE start, the
  paths of the installed Splice app, and the discovery of and talk with the
  local Splice helper.
- `app/` — file and network I/O, the TLS link to the helper, the serialisable
  shapes the UI receives, and the commands that drive the library.
- `tests/` — tests of the library's public functions.
