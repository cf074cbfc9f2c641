# charybdis_rmk

Firmware logic of a Charybdis Mini 3x6 split keyboard with a trackball and
two USB dongles, written in Verus: every function in `src/` carries a contract,
proved by Verus except for the few trusted wrappers named below.

## Layout

- `src/` — the verified library.
  - `board.rs`: the nine-layer default keymap, with the proof that every
    layer switch in it names one of its layers.
  - `keymap.rs`, `grid.rs`: the keymap data in layer-major flat form.
  - `storage.rs`, `codec.rs`, `schema.rs`: what is stored, under which key, how
    a key is framed on flash, and the schema hash that decides a boot-time
    erase.
  - `task.rs`: the storage task's decisions (where the storage lives, what a
    boot does, request ids, user-data framing).
  - `restore.rs`, `layout.rs`: restoring the keymap from stored items, and
    the items that rewrite the stored layout; the proofs that the last stored
    edit wins and that a rewrite restores the layout and keeps the pairings.
  - `profile.rs`: BLE bond profiles and dongle slots.
  - `host_context.rs`: the context the host services edit the keymap through.
  - `behavior.rs`, `action.rs`: key actions, combos, forks, morse keys and
    behavior settings.
  - `macro_bytes.rs`: checking a stored macro buffer.
  - `flash.rs`: an in-memory NOR flash part.
  - `device.rs`: the BLE address, the DFU plug-in window and the flash layout.
  - `pointing.rs`, `custom_message.rs`: trackball modes per layer, and
    messages between the boards.
  - `bytes.rs`: the fixed-capacity `heapless::Vec` buffers, behind small
    trusted wrappers.

  Two kinds of items are trusted rather than proved: the `heapless::Vec`
  wrappers in `bytes.rs`, and `identity_matches` in `profile.rs`, which calls
  `trouble_host::Identity::match_identity`. Their contracts state what the
  outside code does, and everything else in `src/` is proved against them.
- `tests/` — tests of the library on concrete values.
- `app/` — the asynchronous tasks, serde copies of the stored types, the
  NOR-flash and storage-map glue, and a host-side run of the start-up path.
