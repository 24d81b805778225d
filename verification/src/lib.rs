//! Verified core of a small x86 hobby kernel and its multiboot loader:
//! ELF64 header checks, multiboot information records, the 8250 UART
//! programming sequence, the VGA text console and the memory primitives.

pub mod elf;
pub mod le;
pub mod long_mode;
pub mod mem;
pub mod multiboot;
pub mod serial;
pub mod vga;
