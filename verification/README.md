# ironboyadvance

Verified building blocks of a Game Boy Advance emulator, written in Verus.

- `src/common`: bit helpers, memory-mapped register access, the system
  memory interface, ROM system detection and the event scheduler.
- `src/gba`: the hardware units — interrupt, keypad, system control (wait
  states), timers, DMA registers, work RAM, BIOS, cartridge header and backup
  detection, sound registers, and the PPU's registers and line renderers
  (objects, text and affine backgrounds, bitmap modes, layer selection of
  the compositor, and the line renderer that orders and draws them), the
  open-bus value of the system bus.
- `src/jit`: decoding of ARM and THUMB instruction words into their classes.
- `app`: the error types with their messages, text views of header fields,
  and the ARM7TDMI JIT, which generates AArch64 code with `dynasmrt` for the
  CPU of the `ironboyadvance_arm7tdmi` crate.

Each unit states its behaviour over a model of its registers; the
read/write laws, the scheduler's ordering, the timers' overflow timing and
the object layering are proved.
