# tool

The decision logic of an in-game overlay for "Climber Animals: Together",
verified with Verus.

- `src/` is the verified library:
  - `memory`: which memory regions may be read or written, and a
    step-by-step walk that resolves multi-level pointer chains, proved to
    end with the address the chain denotes;
  - `tool`: the overlay state and its per-frame step (focus and input
    gating, debounced show/hide toggle, key binding, hotkeys), the
    handling of the window's controls, the notification queue of at most
    three, the time lock and the game values;
  - `keys`: names of virtual-key codes;
  - `config`: the saved settings and what to do with what is on disk;
  - `injector`: whether the injector runs elevated, and where it takes
    the overlay library from.
- `app/` holds what only runs on Windows: raw memory access, the Win32
  calls, the settings file (serde JSON), the ImGui interface through
  hudhook, and the injector's entry point.
- `tests/` exercises the library on concrete values.
