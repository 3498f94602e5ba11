# yakuza_freecam

A free camera tool for Yakuza 0, Kiwami, Kiwami 2, Yakuza 6 and Like a Dragon,
split into a library verified with Verus and the program around it.

- `src/` — the verified library:
  - `common`: version text, game patches, the memory writes that switch the
    camera on and off, and a model of the game's memory in which switching the
    camera on and back off is proved to leave the memory as it was;
  - `gamepad`, `internal`, `controller`: decoding controller states;
  - `session`: the state machine of the stand-alone tools' main loop;
  - `kiwami`, `kiwami2`, `yakuza0`, `likeadragon`, `yakuza6`: per-game patch
    tables, UI backup, controller filtering, address arithmetic, keyboard
    decoding and camera paths;
  - `string_list`: reading a list of strings out of the game's memory.
- `app/` — the Windows side: process memory, hooks, keyboard and mouse, and the
  floating-point camera arithmetic.
- `tests/` — tests of the library on concrete values.
