# libnestacean

The beginnings of an NES emulator, written in Verus: every function of the
library carries a contract that Verus proves.

- `src/cart.rs`: iNES file parsing (`RomFile::from_bytes`) and the NROM
  cartridge (`Cart::from_file`), with its CPU-visible memories.
- `src/mmap.rs`: the CPU's memory map (internal RAM, picture registers and
  their mirrors, audio registers, test registers, cartridge). Accesses go
  over an address bus and a data bus, modelled as queues; the devices are
  specified by `MemoryMap::peek` and `MemoryMap::poked`, the buses by
  `read_value`, `read_bus`, `written_devices` and `written_bus`, with the
  read-after-write law.
- `src/apu.rs`, `src/ppu.rs`: the audio and picture units' registers.
- `src/cpu/`: registers and flags, the opcode decoder, and the instructions
  that the CPU executes so far; `Cpu::step` is specified by `Cpu::stepped`.
- `app/main.rs`: the program that loads `../test.nes` from disk and runs the
  CPU; before each step it waits until the CPU's next counted cycle is due
  by the wall clock (`Cpu::cycle_due`).
