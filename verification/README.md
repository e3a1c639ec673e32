# launchpad_emulator

Emulators of Novation Launchpad controllers (the Launchpad X and the Launchpad Mini MK3) that
present themselves as MIDI devices. A host lights the emulated surface with the same MIDI it would
send the hardware; presses on the drawn surface go back as the bytes the hardware would report.

## Layout

- `src/` is the library, verified with Verus:
  - `devices/`: the MIDI codec shared by the MK3 family (pad numbering, channel voice messages,
    SysEx lighting, text scrolling, settings), the colour palette, and one marker type per model.
  - `surface.rs`: the lighting state a host builds up, including scrolling text, with laws on what
    each message does to it.
  - `font.rs`: the bitmap font scrolled text is drawn with.
  - `emulator.rs`: what becomes of host bytes and of interactions, and how hardware ports are
    recognised by name.
  - `ui/`: the parts of the on-screen widget that do not depend on what draws it: which positions
    are pads, the hover labels, and the pointer state machine.
  - `console.rs`: the scrolling record of host traffic.
- `tests/` runs the library on concrete values.
- `app/` is the window: MIDI ports (`midir`), drawing (`egui`/`eframe`), the tempo clock and the
  colour animation, which work in floating point, and `main`.
