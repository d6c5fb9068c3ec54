# VRC7 mapper and FM sound, verified

A Verus library for the Konami VRC7 cartridge board of the NES: PRG/CHR bank switching,
nametable mirroring, the scanline/cycle IRQ counter, and the six-channel FM synthesizer.

- `src/memoryblock.rs` – cartridge memory with wrapping and banked access.
- `src/mirroring.rs` – nametable mirroring modes and their address maps.
- `src/vrc7_channel.rs` – one FM channel: log-sine/exponent lookups, phases, ADSR envelopes,
  patch decoding, output sample.
- `src/vrc7_audio.rs` – the six channels, their round-robin clocking, the register port.
- `src/vrc7.rs` – the mapper: CPU/PPU reads and writes, IRQ timing, save RAM.
- `src/cartridge.rs` – choosing a board by iNES mapper number, the loader's messages.
- `app/lib.rs` – what the library leaves to its host: the floating-point tables, mixing into
  the console's float audio, debug printing, reading files, the emulator's `Mapper` interface.
- `tests/` – tests on concrete values.

Every public function's contract is stated over spec functions in the same module; the
public proof functions (`lemma_*`) state the laws that relate several operations.
