# ironbar_core

The decision-making core of a Wayland status bar's modules, written in Verus
and proved against its contracts: format-string parsing and rendering for
system information, the launcher's window/item bookkeeping, tray menu
updates and click handling, the application menu's sorted sections, the
inhibit module's duration cycling, and the text each module shows.

Layout:

- `src/` — the verified library, one module per bar module (`launcher/`,
  `menu/` and `sysinfo/` are split further). Calls into `indexmap`, `regex`
  and `chrono` go through small trusted wrappers whose contracts are stated
  next to them.
- `tests/` — ordinary Rust tests of the library.
- `app/` — the unverified rest: serde forms of configuration types,
  conversions from the `system-tray` crate, the async event loops, file and
  clock access, and the few rules that work on floating-point values.
