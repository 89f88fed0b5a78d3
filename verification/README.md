# gb_emu

The cartridge side of a Game Boy emulator, verified with Verus.

- `src/io/mbc/` — the memory bank controllers (none, MBC1, MBC3, MBC5)
  behind the `Mbc` trait, the choice of controller from the cartridge type
  code (`new`), a model of every controller's state (`model.rs`, and a
  `*State` type beside each controller), and the laws that hold across
  reads and writes (`laws.rs`).
- `src/mmu.rs` — what a device answers to a bus access.
- `src/input.rs` — the joypad keys, their names, and the table of held keys.
- `src/frontend.rs` — the RGBA image of a frame and the frame pacing delay.
- `tests/` — tests on concrete values.
