# qmk_xap

A client for keyboards that speak QMK's XAP protocol, with its core written
in Verus and verified.

## Layout

- `src/` — the verified library.
  - `token`, `wire`, `request`, `response`, `broadcast`, `status`, `error`:
    the XAP frame format: tokens, request frames and HID reports, response
    and broadcast frames, secure status and protocol versions.
  - `spec`, `routes`, `protocol`: the request and response types of every
    route, in the naming of the generated bindings, of the per-subsystem
    route modules, and of the route-id-only requests.
  - `device`: one device session: pending requests, arriving responses and
    broadcasts, and the device state.
  - `client`: the set of connected devices.
  - `event_loop`: when the client's loop stops, enumerates devices and
    waits between passes, and each step of the wait for a response.
  - `probe`: what the client asks a new device, step by step, and the
    description and keymap it builds from the answers.
  - `constants`, `aggregation`, `effects`: keycode and lighting effect
    tables and the views of them the user interface shows.
  - `layout`: where the keys of the switch matrix sit on the board.
  - `codegen`: reading, merging and rendering the route specification
    files into Rust bindings.
  - `text`, `sort`: character helpers and a stable insertion sort.
- `tests/` — tests of the library on concrete values.
- `app/` — the program around the library: HID access, the event loop,
  reading the specification directory and files, JSON output, and the
  `codegen` command.
