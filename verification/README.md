# ezpc

The core of an IBM PC (Intel 8088) emulator, written in Verus: every
function of the library carries a `requires`/`ensures` contract that Verus
proves.

## Layout

- `src/cpu/` — the CPU: register file and flags (`state.rs`), the ModR/M
  and operand decoder (`decode/`), the direct decoder and the 256-entry
  dispatch with its per-instruction effects (`tier1/`), the instruction
  handlers (`execute/`), the decode cache (`tier2/`), the 8088 timing
  tables (`timing.rs`) and a small harness that runs programs
  (`harness.rs`).
- `src/memory.rs` — the memory bus: 64KB of RAM, the MDA video RAM, the
  BIOS ROM, and the I/O port space with its devices.
- `src/components/` — the 8237 DMA controller, the 8259 interrupt
  controller, the 8253 timer, the 8255 peripheral interface and keyboard
  buffer, the uPD765 floppy controller, floppy images and the monochrome
  display adapter.
- `src/debugger/` — the GDB Remote Serial Protocol: packet framing and the
  command handlers, and the debugger's run state and breakpoints.
- `src/scancode.rs` — host keys to PC scancodes (set 1).
- `src/emulator.rs` — frame pacing and the start-up picture.
- `app/` — the window, the GPU surface (winit, wgpu), the debugger's Unix
  socket and disk image files.
- `tests/` — tests of the library.

Besides the contracts of each function, laws that relate several
operations are proved as `law_*` proof functions next to what they speak
of: what a read gives back of a write (memory, registers, flags, stack,
floppy sectors, timer counts, DMA registers, the interrupt mask, whole
instruction operands, floppy controller result bytes), that ROR undoes ROL
and RCR undoes RCL, that RET returns from CALL, the stack frame an
interrupt (or a divide error) leaves, the flags an operation leaves one by
one, formatting a floppy track, releasing the floppy controller from
reset, that a framed GDB packet parses back to its data, and the edge
triggering of the interrupt controller and the keyboard's IRQ1.
