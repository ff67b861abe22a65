# wayland-ptt

Push-to-talk for X11 applications running under XWayland: the program
watches an evdev input device for a listen key and is set up to send a key
or mouse button to X11 through the XTEST extension.

Layout:

- `src/` — the verified library.
  - `args.rs` — the command line, specified as a state machine over the
    arguments (`parse_args_spec`), with the laws of accepted and refused
    command lines.
  - `evdev.rs` — the listen key, the device checks, the device description
    and the classification of input events; the calls into the `evdev` crate
    stand behind small trusted wrappers.
  - `setup_evdev.rs` — the start-up variant of the evdev set-up.
  - `x11.rs` — the decisions and errors of the X11/XTEST set-up.
  - `text.rs` — decimal parsing and hexadecimal rendering on characters.
- `app/main.rs` — the program: environment, blocking event reads and the
  X11 connection itself.
- `tests/` — the tests.
