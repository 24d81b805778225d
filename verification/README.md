# soveu_kernel

The verified core of a small x86 hobby kernel and of the multiboot loader
that starts it, written in Verus.

- `src/elf` — checks that a byte string is a 64-bit little-endian System V
  executable for x86-64 and reads its file header and program headers.
- `src/multiboot.rs` — the multiboot header and checksum, and the information
  record a multiboot loader leaves in memory: memory limits, command line,
  modules and the memory map. Memory is a byte string indexed by physical
  address.
- `src/serial.rs` — the 8250/16550 UART: the port writes that program it and
  the decisions to read or send a byte given the line status.
- `src/vga.rs` — the 80x25 text console that prints on the bottom row and
  scrolls.
- `src/mem.rs` — copy, move, fill and compare over byte slices.
- `src/long_mode.rs` — page table entries, descriptor table and control
  register values for entering long mode.
- `src/le.rs` — little-endian fields of byte strings.

`app/` holds what touches hardware: port I/O, the memory-mapped text
buffer, the global consoles, the boot sequence and the long mode switch, and
a hosted driver that runs the boot sequence over a dump of physical memory.
