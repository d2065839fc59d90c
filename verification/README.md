# z80emulib

The core of a ZX Spectrum 128 emulator, verified with Verus: the Z80
processor with its cycle timing, the paged 128K memory, the ULA (keyboard,
picture, memory contention) and the AY's port, the .z80 snapshot format, and
the decisions of the interactive debugger.

## Layout

- `src/cpu.rs` – the register file, the model of the processor (`CpuModel`)
  and the micro-operations that instructions are made of (memory and I/O
  cycles with their contention); `src/cpu/step.rs` decodes and runs one
  instruction, prefixes included, and handles the end-of-frame interrupt;
  `src/cpu/laws.rs` holds the laws of the register file.
- `src/instructions.rs` and `src/instructions/` – every instruction of the
  decoding tables (unprefixed, CB, ED, DD, FD, DD CB, FD CB), each with the
  state it leads to, and the table dispatchers; `laws.rs` relates
  instructions to one another (EX twice, PUSH then POP, CALL then RET...).
- `src/memory.rs` – ROMs, the eight RAM pages and the paging registers.
- `src/interconnect.rs` – the bus: memory, ports and contention delays.
- `src/peripherals.rs`, `src/peripherals/screen.rs` – the ULA's keyboard
  and port, the AY, and the picture the ULA draws from video memory.
- `src/machine.rs` – the machine as a whole and the host keyboard mapping.
- `src/snapshot.rs` – reading .z80 snapshots.
- `src/debugger.rs`, `src/debugger/` – the debugger's command language and
  its register dump.
- `app/main.rs` – the program: options, files, the SDL window and event
  loop, and the debugger's prompt.

The program expects `roms/128-0.rom`, `roms/128-1.rom` and the two ULA
contention tables `roms/ulacontention.bin` and `roms/ulacontentionnomreq.bin`
in its working directory.
