# keepawake

The state and decision logic of KeepAwake, a macOS menu-bar utility that
keeps the machine (and optionally the display) awake with IOKit power
assertions, for a limited time or without limit, and shows the time left as
the fill of a coffee cup.

- `src/` is the verified library:
  - `duration.rs` — a span of time in nanoseconds;
  - `text.rs` — decimal rendering of numbers;
  - `timer.rs` — a timed session: time left, whether it has run out;
  - `icons.rs` — the five cup frames and the choice of frame;
  - `app_state.rs` — the application state, tooltip and per-tick updates;
  - `awake.rs` — the assertion lifecycle as a state machine that tells the
    caller which platform calls to make;
  - `tray.rs` — the menu layout and menu id to command translation.
- `app/` is the program: the `tao` event loop, the tray (`tray-icon`), the
  PNG loading (`image`), the IOKit calls (`core-foundation`, `libc`) and
  Ctrl+C handling (`ctrlc`).
