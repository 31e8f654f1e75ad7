# epaper_album

The logic of an e-ink photo album: a battery-powered panel that wakes, syncs its
display plans with a server, picks the photo for the day and draws it with its
caption and date, together with the server rules that accept and catalogue the
uploaded photos. The library is written in Verus: its functions carry
contracts that Verus proves, and the few calls into outside crates (image
decoding and encoding, SHA-256, hex, JSON) sit behind small trusted wrappers
whose contracts say what those crates document.

## Layout

- `src/` — the verified library.
  - `app/`, `device.rs`, `device_runtime.rs` — the device cycle: when to sync,
    what to show, what is kept between wake-ups.
  - `display.rs`, `bmp.rs`, `render/`, `epd.rs`, `device_display.rs` — the
    screen buffer, bitmap parsing, dithering, text and error pages, and the
    packed frame sent to the panel.
  - `server/` — upload checks, image hashing and conversion, plans and settings.
  - `cache.rs`, `model.rs`, `schedule.rs`, `state.rs`, `power.rs`, `pmic.rs`,
    `diagnostics.rs`, `cycle_log.rs`, `selftest.rs`, `config.rs`, `text.rs` —
    the catalogue, the plan model, battery and power rules, logs and checks.
  - `laws.rs` — properties that span several functions.
  - `scripted.rs` — a sync and a display with prepared answers, for running a
    device cycle away from the hardware.
- `tests/` — tests of the library on concrete values.
- `app/` — the program around the library: files, environment, JSON and image
  resizing.

## Checking

`verus` on `src/lib.rs` verifies the library; `cargo test` runs the tests.
