# pkrd

The game-state logic of a 3DS system module that follows the random number
generators of running Pokémon games and drives their inputs.

- `src/` — the library, verified with Verus:
  - `rng/mt.rs`, `rng/tinymt.rs`: the Mersenne Twister and TinyMT generators;
  - `rng/gen6.rs`: the generation 6 tracker (advance counting, reseeding,
    input redirection decisions);
  - `rng/gen2.rs`, `reader.rs`, `game/c/`: the generation 2 visual frame
    tracker, the Game Boy memory reader and the Pokémon Crystal hook;
  - `command_handler.rs`: the command list received from a computer;
  - `views/`, `frame_pause.rs`, `notification.rs`: the overlay's views,
    frame pausing and system notifications.
- `tests/` — tests of the library.
- `app/` — the system module itself: system services, sockets, HTTP, screen
  drawing and input redirection writes, through the 3DS system library.
