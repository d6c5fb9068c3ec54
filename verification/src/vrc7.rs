//! The Konami VRC7 mapper: PRG and CHR bank switching, a scanline/cycle IRQ counter, and the
//! FM sound unit behind a two-register port.
use vstd::prelude::*;
use crate::memoryblock::{
    MemoryBlock, banked_read_value, banked_address,
    wrapping_read_value, wrapping_write_value,
};
use crate::mirroring::{
    Mirroring, nametable_index, horizontal_mirroring, vertical_mirroring, one_screen_lower,
    one_screen_upper,
};
use crate::vrc7_channel::tables_wf;
use crate::cartridge::INesImage;
use crate::vrc7_audio::{Vrc7Audio, audio_clock, audio_written};

verus! {

pub struct Vrc7 {
    pub prg_rom: MemoryBlock,
    pub prg_ram: MemoryBlock,
    pub chr: MemoryBlock,

    pub mirroring: Mirroring,
    pub vram: Vec<u8>,

    pub chr_banks: Vec<u8>,
    pub prg_banks: Vec<u8>,
    pub submapper: u8,

    pub irq_scanline_prescaler: i16,
    pub irq_latch: u8,
    pub irq_scanline_mode: bool,
    pub irq_enable: bool,
    pub irq_enable_after_acknowledgement: bool,
    pub irq_pending: bool,
    pub irq_counter: u8,

    pub audio_register: u8,

    pub audio: Vrc7Audio,
}

impl Vrc7 {
    /// Room for the two kilobytes of nametable RAM that mirroring reaches, the eight CHR and
    /// three PRG bank registers, and a well-formed audio unit.
    pub open spec fn wf(&self) -> bool {
        &&& self.vram@.len() >= 0x800
        &&& self.chr_banks@.len() >= 8
        &&& self.prg_banks@.len() >= 3
        &&& self.audio.wf()
    }

    /// A CPU clock can run without overflow: the scanline prescaler can lose three dots, and
    /// the audio round-robin index can advance.
    pub open spec fn can_clock(&self) -> bool {
        &&& self.irq_enable && self.irq_scanline_mode ==> self.irq_scanline_prescaler >= -32765
        &&& self.audio.delay_counter == 0 ==> self.audio.current_channel < usize::MAX
    }

    /// The register state after power-on: nametable RAM and bank registers clear, the IRQ
    /// disabled and idle, the audio unit silent.
    pub open spec fn is_power_on(&self) -> bool {
        &&& self.vram@ == Seq::new(0x1000, |i: int| 0u8)
        &&& self.chr_banks@ == seq![0u8; 8]
        &&& self.prg_banks@ == seq![0u8; 3]
        &&& self.irq_scanline_prescaler == 0
        &&& self.irq_latch == 0
        &&& !self.irq_scanline_mode
        &&& !self.irq_enable
        &&& !self.irq_enable_after_acknowledgement
        &&& !self.irq_pending
        &&& self.irq_counter == 0
        &&& self.audio_register == 0
        &&& self.audio.is_power_on()
    }
}

/// The IRQ counter counts up; on overflow from $FF it reloads the latch and raises the IRQ.
pub open spec fn irq_counter_clocked(m: Vrc7) -> Vrc7 {
    if m.irq_counter == 0xFF {
        Vrc7 { irq_counter: m.irq_latch, irq_pending: true, ..m }
    } else {
        Vrc7 { irq_counter: (m.irq_counter + 1) as u8, ..m }
    }
}

/// In scanline mode the prescaler loses 3 per CPU clock; when it runs out the counter is
/// clocked and the prescaler gains one scanline (341 PPU dots).
pub open spec fn irq_prescaler_clocked(m: Vrc7) -> Vrc7 {
    let p = m.irq_scanline_prescaler - 3;
    if p <= 0 {
        Vrc7 {
            irq_scanline_prescaler: (p + 341) as i16,
            ..irq_counter_clocked(Vrc7 { irq_scanline_prescaler: p as i16, ..m })
        }
    } else {
        Vrc7 { irq_scanline_prescaler: p as i16, ..m }
    }
}

/// The IRQ counter on one CPU clock: counted per scanline or per cycle when enabled.
pub open spec fn irq_clocked(m: Vrc7) -> Vrc7 {
    if m.irq_enable {
        if m.irq_scanline_mode { irq_prescaler_clocked(m) } else { irq_counter_clocked(m) }
    } else {
        m
    }
}

/// One CPU clock: the IRQ counter and the audio unit.
pub open spec fn cpu_clocked(m: Vrc7) -> Vrc7 {
    let m1 = irq_clocked(m);
    Vrc7 { audio: audio_clock(m1.audio), ..m1 }
}

/// What the CPU reads at `address`: PRG RAM at $6000-$7FFF, three switchable 8 KiB PRG banks
/// at $8000-$DFFF, and the last PRG bank fixed at $E000-$FFFF.
pub open spec fn cpu_read_value(m: Vrc7, address: u16) -> Option<u8> {
    if 0x6000 <= address <= 0x7FFF {
        wrapping_read_value(m.prg_ram@, address - 0x6000)
    } else if 0x8000 <= address <= 0xDFFF {
        let bank = m.prg_banks@[(address - 0x8000) / 0x2000];
        banked_read_value(m.prg_rom@, 0x2000, bank as int, address as int)
    } else if address >= 0xE000 {
        banked_read_value(m.prg_rom@, 0x2000, 0xFF, address as int)
    } else {
        None
    }
}

/// What the PPU reads at `address`: eight switchable 1 KiB CHR banks at $0000-$1FFF, and
/// the nametable RAM at $2000-$3FFF as the mirroring mode maps it.
pub open spec fn ppu_read_value(m: Vrc7, address: u16) -> Option<u8> {
    if address <= 0x1FFF {
        let bank = m.chr_banks@[address as int / 0x400];
        banked_read_value(m.chr@, 0x400, bank as int, address as int)
    } else if address <= 0x3FFF {
        match nametable_index(m.mirroring, address) {
            Some(i) => Some(m.vram@[i]),
            None => None,
        }
    } else {
        None
    }
}

/// The register a CPU write at $8000-$FFFF selects: the address with the bits that the
/// board does not decode cleared. Submapper 1 decodes A3, the others A4.
pub open spec fn register_address(submapper: u8, address: u16) -> u16 {
    address & (if submapper == 1 { 0xF028u16 } else { 0xF030u16 })
}

/// The CHR bank register (0..7) a decoded register address selects, if any.
pub open spec fn chr_bank_register(reg: u16) -> Option<int> {
    if reg == 0xA000 { Some(0) }
    else if reg == 0xA008 || reg == 0xA010 { Some(1) }
    else if reg == 0xB000 { Some(2) }
    else if reg == 0xB008 || reg == 0xB010 { Some(3) }
    else if reg == 0xC000 { Some(4) }
    else if reg == 0xC008 || reg == 0xC010 { Some(5) }
    else if reg == 0xD000 { Some(6) }
    else if reg == 0xD008 || reg == 0xD010 { Some(7) }
    else { None }
}

/// The PRG bank register (0..2) a decoded register address selects, if any.
pub open spec fn prg_bank_register(reg: u16) -> Option<int> {
    if reg == 0x8000 { Some(0) }
    else if reg == 0x8010 || reg == 0x8008 { Some(1) }
    else if reg == 0x9000 { Some(2) }
    else { None }
}

/// The mirroring mode selected by the low two bits of a write to $E000.
pub open spec fn mirroring_from_bits(data: u8) -> Mirroring {
    if data % 4 == 0 {
        Mirroring::Vertical
    } else if data % 4 == 1 {
        Mirroring::Horizontal
    } else if data % 4 == 2 {
        Mirroring::OneScreenLower
    } else {
        Mirroring::OneScreenUpper
    }
}

/// A write to the IRQ control register $F000: bit 2 clear selects scanline mode, bit 1
/// enables the IRQ, bit 0 is the enable to restore on acknowledgement; any pending IRQ is
/// acknowledged, and enabling reloads the counter from the latch and restarts the prescaler.
pub open spec fn irq_control_written(m: Vrc7, data: u8) -> Vrc7 {
    let enable = data & 0x02 != 0;
    Vrc7 {
        irq_scanline_mode: data & 0x04 == 0,
        irq_enable: enable,
        irq_enable_after_acknowledgement: data & 0x01 != 0,
        irq_pending: false,
        irq_counter: if enable { m.irq_latch } else { m.irq_counter },
        irq_scanline_prescaler: if enable { 341 } else { m.irq_scanline_prescaler },
        ..m
    }
}

/// A write to the IRQ acknowledge register: clears the pending IRQ and restores the enable.
pub open spec fn irq_acknowledged(m: Vrc7) -> Vrc7 {
    Vrc7 { irq_pending: false, irq_enable: m.irq_enable_after_acknowledgement, ..m }
}

/// What a write of `data` to the decoded mapper register `reg` does, relating the mapper
/// before (`m`) and after (`n`).
pub open spec fn register_written(m: Vrc7, n: Vrc7, reg: u16, data: u8) -> bool {
    if prg_bank_register(reg) is Some {
        &&& n.prg_banks@ == m.prg_banks@.update(prg_bank_register(reg)->0, data % 64)
        &&& n == Vrc7 { prg_banks: n.prg_banks, ..m }
    } else if chr_bank_register(reg) is Some {
        &&& n.chr_banks@ == m.chr_banks@.update(chr_bank_register(reg)->0, data)
        &&& n == Vrc7 { chr_banks: n.chr_banks, ..m }
    } else if reg == 0x9010 {
        n == Vrc7 { audio_register: data, ..m }
    } else if reg == 0x9030 {
        &&& audio_written(m.audio, n.audio, m.audio_register, data)
        &&& n == Vrc7 { audio: n.audio, ..m }
    } else if reg == 0xE000 {
        n == Vrc7 { mirroring: mirroring_from_bits(data), ..m }
    } else if reg == 0xE008 || reg == 0xE010 {
        n == Vrc7 { irq_latch: data, ..m }
    } else if reg == 0xF000 {
        n == irq_control_written(m, data)
    } else if reg == 0xF008 || reg == 0xF010 {
        n == irq_acknowledged(m)
    } else {
        n == m
    }
}

/// What a CPU write of `data` to `address` does: PRG RAM at $6000-$7FFF, mapper registers
/// at $8000-$FFFF.
pub open spec fn cpu_written(m: Vrc7, n: Vrc7, address: u16, data: u8) -> bool {
    if 0x6000 <= address <= 0x7FFF {
        &&& n.prg_ram@ == wrapping_write_value(m.prg_ram@, m.prg_ram.is_writable(), address - 0x6000, data)
        &&& n.prg_ram.kind() == m.prg_ram.kind()
        &&& n == Vrc7 { prg_ram: n.prg_ram, ..m }
    } else if address >= 0x8000 {
        register_written(m, n, register_address(m.submapper, address), data)
    } else {
        n == m
    }
}

/// What a PPU write of `data` to `address` does.
pub open spec fn ppu_written(m: Vrc7, n: Vrc7, address: u16, data: u8) -> bool {
    if address <= 0x1FFF {
        let bank = m.chr_banks@[address as int / 0x400];
        &&& n.chr@ == wrapping_write_value(m.chr@, m.chr.is_writable(),
            banked_address(0x400, bank as int, address as int), data)
        &&& n.chr.kind() == m.chr.kind()
        &&& n == Vrc7 { chr: n.chr, ..m }
    } else if address <= 0x3FFF && nametable_index(m.mirroring, address) is Some {
        &&& n.vram@ == m.vram@.update(nametable_index(m.mirroring, address)->0, data)
        &&& n == Vrc7 { vram: n.vram, ..m }
    } else {
        n == m
    }
}

impl Vrc7 {
    fn _clock_irq_counter(&mut self)
        ensures
            *final(self) == irq_counter_clocked(*old(self)),
    {
        if self.irq_counter == 0xFF {
            self.irq_counter = self.irq_latch;
            self.irq_pending = true;
        } else {
            self.irq_counter += 1;
        }
    }

    fn _clock_irq_prescaler(&mut self)
        requires
            old(self).irq_scanline_prescaler >= -32765,
        ensures
            *final(self) == irq_prescaler_clocked(*old(self)),
    {
        self.irq_scanline_prescaler -= 3;
        if self.irq_scanline_prescaler <= 0 {
            self._clock_irq_counter();
            self.irq_scanline_prescaler += 341;
        }
    }

    fn clock_irq(&mut self)
        requires
            old(self).irq_enable && old(self).irq_scanline_mode ==> old(self).irq_scanline_prescaler >= -32765,
        ensures
            *final(self) == irq_clocked(*old(self)),
    {
        if self.irq_enable {
            if self.irq_scanline_mode {
                self._clock_irq_prescaler();
            } else {
                self._clock_irq_counter();
            }
        }
    }

    /// One CPU clock: the IRQ counter and the audio unit advance.
    pub fn clock_cpu(&mut self)
        requires
            old(self).wf(),
            old(self).can_clock(),
        ensures
            final(self).wf(),
            old(self).audio.current_channel < 6 ==> final(self).can_clock(),
            *final(self) == cpu_clocked(*old(self)),
    {
        self.clock_irq();
        self.audio.clock();
    }

    pub fn irq_flag(&self) -> (r: bool)
        ensures
            r == self.irq_pending,
    {
        self.irq_pending
    }

    pub fn mirroring(&self) -> (r: Mirroring)
        ensures
            r == self.mirroring,
    {
        self.mirroring
    }

    pub fn debug_read_cpu(&self, address: u16) -> (r: Option<u8>)
        requires
            self.wf(),
        ensures
            r == cpu_read_value(*self, address),
    {
        match address {
            0x6000..=0x7FFF => self.prg_ram.wrapping_read((address - 0x6000) as usize),
            0x8000..=0x9FFF => self.prg_rom.banked_read(0x2000, self.prg_banks[0] as usize, address as usize),
            0xA000..=0xBFFF => self.prg_rom.banked_read(0x2000, self.prg_banks[1] as usize, address as usize),
            0xC000..=0xDFFF => self.prg_rom.banked_read(0x2000, self.prg_banks[2] as usize, address as usize),
            0xE000..=0xFFFF => self.prg_rom.banked_read(0x2000, 0xFF, address as usize),
            _ => None,
        }
    }

    pub fn debug_read_ppu(&self, address: u16) -> (r: Option<u8>)
        requires
            self.wf(),
        ensures
            r == ppu_read_value(*self, address),
    {
        match address {
            0x0000..=0x1FFF => {
                let bank = self.chr_banks[(address / 0x400) as usize];
                self.chr.banked_read(0x400, bank as usize, address as usize)
            },
            0x2000..=0x3FFF => match self.mirroring {
                Mirroring::Horizontal => Some(self.vram[horizontal_mirroring(address) as usize]),
                Mirroring::Vertical => Some(self.vram[vertical_mirroring(address) as usize]),
                Mirroring::OneScreenLower => Some(self.vram[one_screen_lower(address) as usize]),
                Mirroring::OneScreenUpper => Some(self.vram[one_screen_upper(address) as usize]),
                _ => None,
            },
            _ => None,
        }
    }

    pub fn has_sram(&self) -> (r: bool)
        ensures
            r,
    {
        true
    }

    pub fn get_sram(&self) -> (r: Vec<u8>)
        ensures
            r@ == self.prg_ram@,
    {
        let r = self.prg_ram.as_vec().clone();
        assert(r@ =~= self.prg_ram@);
        r
    }

    pub fn load_sram(&mut self, sram_data: Vec<u8>)
        ensures
            final(self).prg_ram@ == sram_data@,
            final(self).prg_ram.kind() == old(self).prg_ram.kind(),
            *final(self) == (Vrc7 { prg_ram: final(self).prg_ram, ..*old(self) }),
    {
        *self.prg_ram.as_mut_vec() = sram_data;
    }
}

impl Vrc7 {
    fn write_prg_bank(&mut self, k: usize, data: u8)
        requires
            old(self).wf(),
            k < 3,
        ensures
            final(self).prg_banks@ == old(self).prg_banks@.update(k as int, data % 64),
            *final(self) == (Vrc7 { prg_banks: final(self).prg_banks, ..*old(self) }),
    {
        assert(data & 0b0011_1111 == data % 64) by (bit_vector);
        self.prg_banks.set(k, data & 0b0011_1111);
    }

    fn write_chr_bank(&mut self, k: usize, data: u8)
        requires
            old(self).wf(),
            k < 8,
        ensures
            final(self).chr_banks@ == old(self).chr_banks@.update(k as int, data),
            *final(self) == (Vrc7 { chr_banks: final(self).chr_banks, ..*old(self) }),
    {
        self.chr_banks.set(k, data);
    }

    fn write_irq_control(&mut self, data: u8)
        ensures
            *final(self) == irq_control_written(*old(self), data),
    {
        assert(((data & 0b0000_0100) >> 2 == 0) == (data & 0x04 == 0)) by (bit_vector);
        let enable = (data & 0b0000_0010) != 0;
        self.irq_scanline_mode = ((data & 0b0000_0100) >> 2) == 0;
        self.irq_enable = enable;
        self.irq_enable_after_acknowledgement = (data & 0b0000_0001) != 0;

        // acknowledge the pending IRQ if there is one
        self.irq_pending = false;

        // If the enable bit is set, setup for the next IRQ immediately, otherwise
        // do nothing (we may already have one in flight)
        self.irq_counter = if enable { self.irq_latch } else { self.irq_counter };
        self.irq_scanline_prescaler = if enable { 341 } else { self.irq_scanline_prescaler };
    }

    fn write_mirroring(&mut self, data: u8)
        ensures
            *final(self) == (Vrc7 { mirroring: mirroring_from_bits(data), ..*old(self) }),
    {
        assert(data & 0b0000_0011 == data % 4) by (bit_vector);
        // for now, ignoring both WRAM protect and sound reset
        self.mirroring = match data & 0b0000_0011 {
            0 => Mirroring::Vertical,
            1 => Mirroring::Horizontal,
            2 => Mirroring::OneScreenLower,
            _ => Mirroring::OneScreenUpper,
        };
    }

    fn write_register(&mut self, register_address: u16, data: u8)
        requires
            old(self).wf(),
        ensures
            final(self).wf(),
            register_written(*old(self), *final(self), register_address, data),
    {
        match register_address {
            0x8000          => self.write_prg_bank(0, data),
            0x8010 | 0x8008 => self.write_prg_bank(1, data),
            0x9000          => self.write_prg_bank(2, data),
            0xA000          => self.write_chr_bank(0, data),
            0xA008 | 0xA010 => self.write_chr_bank(1, data),
            0xB000          => self.write_chr_bank(2, data),
            0xB008 | 0xB010 => self.write_chr_bank(3, data),
            0xC000          => self.write_chr_bank(4, data),
            0xC008 | 0xC010 => self.write_chr_bank(5, data),
            0xD000          => self.write_chr_bank(6, data),
            0xD008 | 0xD010 => self.write_chr_bank(7, data),
            0x9010          => {
                self.audio_register = data;
            },
            0x9030          => {
                self.audio.write(self.audio_register, data);
            },
            0xE000          => self.write_mirroring(data),
            0xE008 | 0xE010 => {
                self.irq_latch = data;
            },
            0xF000          => self.write_irq_control(data),
            0xF008 | 0xF010 => {
                self.irq_pending = false;
                self.irq_enable = self.irq_enable_after_acknowledgement;
            },
            _ => {},
        }
    }

    pub fn write_cpu(&mut self, address: u16, data: u8)
        requires
            old(self).wf(),
        ensures
            final(self).wf(),
            cpu_written(*old(self), *final(self), address, data),
    {
        match address {
            0x6000..=0x7FFF => {
                self.prg_ram.wrapping_write((address - 0x6000) as usize, data);
            },
            0x8000..=0xFFFF => {
                let register_mask: u16 = match self.submapper {
                    1 => 0xF028,
                    2 => 0xF030,
                    _ => 0xF030,
                };
                self.write_register(address & register_mask, data);
            },
            _ => {},
        }
    }

    pub fn write_ppu(&mut self, address: u16, data: u8)
        requires
            old(self).wf(),
        ensures
            final(self).wf(),
            ppu_written(*old(self), *final(self), address, data),
    {
        match address {
            0x0000..=0x1FFF => {
                let bank = self.chr_banks[(address / 0x400) as usize];
                self.chr.banked_write(0x400, bank as usize, address as usize, data);
            },
            0x2000..=0x3FFF => match self.mirroring {
                Mirroring::Horizontal => self.vram.set(horizontal_mirroring(address) as usize, data),
                Mirroring::Vertical => self.vram.set(vertical_mirroring(address) as usize, data),
                Mirroring::OneScreenLower => self.vram.set(one_screen_lower(address) as usize, data),
                Mirroring::OneScreenUpper => self.vram.set(one_screen_upper(address) as usize, data),
                _ => {},
            },
            _ => {},
        }
    }
}

impl Vrc7 {
    /// Builds the mapper from an iNES image; fails with the image's own message when its PRG
    /// RAM (checked first) or its CHR memory could not be built.
    pub fn from_ines(ines: INesImage, logsin_lut: &Vec<u16>, exp_lut: &Vec<u16>) -> (r: Result<Vrc7, String>)
        requires
            tables_wf(logsin_lut@, exp_lut@),
        ensures
            r is Ok <==> (ines.prg_ram is Ok && ines.chr is Ok),
            r matches Ok(m) ==> {
                &&& m.wf()
                &&& m.is_power_on()
                &&& m.audio.reads_tables(logsin_lut@, exp_lut@)
                &&& m.prg_rom == ines.prg_rom
                &&& m.prg_ram == ines.prg_ram->Ok_0
                &&& m.chr == ines.chr->Ok_0
                &&& m.mirroring == ines.mirroring
                &&& m.submapper == ines.submapper_number
            },
            r matches Err(message) ==> (if ines.prg_ram is Err {
                message == ines.prg_ram->Err_0
            } else {
                message == ines.chr->Err_0
            }),
    {
        let INesImage { prg_rom, prg_ram, chr, mirroring, submapper_number, .. } = ines;
        let prg_ram_block = match prg_ram {
            Ok(block) => block,
            Err(message) => return Err(message),
        };
        let chr_block = match chr {
            Ok(block) => block,
            Err(message) => return Err(message),
        };
        let vram = vec![0u8; 0x1000];
        let chr_banks = vec![0u8; 8];
        let prg_banks = vec![0u8; 3];
        assert(vram@ =~= Seq::new(0x1000, |i: int| 0u8));
        assert(chr_banks@ =~= seq![0u8; 8]);
        assert(prg_banks@ =~= seq![0u8; 3]);

        Ok(Vrc7 {
            prg_rom: prg_rom,
            prg_ram: prg_ram_block,
            chr: chr_block,
            mirroring: mirroring,
            vram: vram,
            chr_banks: chr_banks,
            prg_banks: prg_banks,
            submapper: submapper_number,

            irq_scanline_prescaler: 0,
            irq_latch: 0,
            irq_scanline_mode: false,
            irq_enable: false,
            irq_enable_after_acknowledgement: false,
            irq_pending: false,
            irq_counter: 0,

            audio: Vrc7Audio::new(logsin_lut, exp_lut),
            audio_register: 0,
        })
    }
}

/// A PPU write to nametable RAM is read back at the same address under every mirroring
/// mode that maps the address to the console's RAM.
pub proof fn lemma_nametable_read_after_write(m: Vrc7, n: Vrc7, address: u16, data: u8)
    requires
        m.wf(),
        ppu_written(m, n, address, data),
        0x2000 <= address <= 0x3FFF,
        m.mirroring != Mirroring::FourScreen,
    ensures
        ppu_read_value(n, address) == Some(data),
{
}

/// A PPU write to CHR RAM is read back at the same address.
pub proof fn lemma_chr_ram_read_after_write(m: Vrc7, n: Vrc7, address: u16, data: u8)
    requires
        m.wf(),
        ppu_written(m, n, address, data),
        address <= 0x1FFF,
        m.chr.is_writable(),
        m.chr@.len() > 0,
    ensures
        ppu_read_value(n, address) == Some(data),
{
}

/// PPU writes to CHR ROM change nothing the PPU can read.
pub proof fn lemma_chr_rom_ignores_writes(m: Vrc7, n: Vrc7, address: u16, data: u8, other: u16)
    requires
        m.wf(),
        ppu_written(m, n, address, data),
        address <= 0x1FFF,
        !m.chr.is_writable(),
    ensures
        ppu_read_value(n, other) == ppu_read_value(m, other),
{
}

/// A CPU write to PRG RAM is read back at the same address.
pub proof fn lemma_prg_ram_read_after_write(m: Vrc7, n: Vrc7, address: u16, data: u8)
    requires
        m.wf(),
        cpu_written(m, n, address, data),
        0x6000 <= address <= 0x7FFF,
        m.prg_ram.is_writable(),
        m.prg_ram@.len() > 0,
    ensures
        cpu_read_value(n, address) == Some(data),
{
}

/// Writing bank number `data` to $8000 makes $8000-$9FFF show PRG ROM bank `data % 64`.
pub proof fn lemma_prg_bank_switch(m: Vrc7, n: Vrc7, data: u8, offset: u16)
    requires
        m.wf(),
        cpu_written(m, n, 0x8000, data),
        offset < 0x2000,
    ensures
        cpu_read_value(n, (0x8000 + offset) as u16)
            == banked_read_value(m.prg_rom@, 0x2000, (data % 64) as int, 0x8000 + offset),
{
    assert(0x8000u16 & 0xF028u16 == 0x8000u16 && 0x8000u16 & 0xF030u16 == 0x8000u16) by (bit_vector);
}

/// The nametables alias as the mirroring mode says: horizontally the left and right
/// nametables show the same RAM, vertically the top and bottom ones, with one screen all
/// four; and $3000-$3FFF repeats $2000-$2FFF.
pub proof fn lemma_nametable_aliases(m: Vrc7, address: u16)
    requires
        m.wf(),
        0x2000 <= address <= 0x23FF,
    ensures
        m.mirroring == Mirroring::Horizontal ==> {
            &&& ppu_read_value(m, address) == ppu_read_value(m, (address + 0x400) as u16)
            &&& ppu_read_value(m, (address + 0x800) as u16) == ppu_read_value(m, (address + 0xC00) as u16)
        },
        m.mirroring == Mirroring::Vertical ==> {
            &&& ppu_read_value(m, address) == ppu_read_value(m, (address + 0x800) as u16)
            &&& ppu_read_value(m, (address + 0x400) as u16) == ppu_read_value(m, (address + 0xC00) as u16)
        },
        m.mirroring == Mirroring::OneScreenLower || m.mirroring == Mirroring::OneScreenUpper ==> {
            &&& ppu_read_value(m, address) == ppu_read_value(m, (address + 0x400) as u16)
            &&& ppu_read_value(m, address) == ppu_read_value(m, (address + 0x800) as u16)
            &&& ppu_read_value(m, address) == ppu_read_value(m, (address + 0xC00) as u16)
        },
        forall|j: int| 0 <= j < 4 ==> #[trigger] ppu_read_value(m, (address + 0x400 * j) as u16)
            == ppu_read_value(m, (address + 0x400 * j + 0x1000) as u16),
{
}

/// The IRQ counter after `n` CPU clocks.
pub open spec fn irq_clocks(m: Vrc7, n: nat) -> Vrc7
    decreases n,
{
    if n == 0 { m } else { irq_clocks(irq_clocked(m), (n - 1) as nat) }
}

/// In cycle mode, an enabled IRQ counter starting at `c` stays quiet for `255 - c` CPU
/// clocks and raises the IRQ on the next one, reloading the latch.
pub proof fn lemma_cycle_irq_timing(m: Vrc7)
    requires
        m.irq_enable,
        !m.irq_scanline_mode,
        !m.irq_pending,
    ensures
        irq_clocks(m, (255 - m.irq_counter) as nat).irq_counter == 255,
        !irq_clocks(m, (255 - m.irq_counter) as nat).irq_pending,
        irq_clocks(m, (256 - m.irq_counter) as nat).irq_pending,
        irq_clocks(m, (256 - m.irq_counter) as nat).irq_counter == m.irq_latch,
    decreases 255 - m.irq_counter,
{
    if m.irq_counter < 255 {
        let m1 = irq_clocked(m);
        assert(m1.irq_counter == m.irq_counter + 1);
        lemma_cycle_irq_timing(m1);
        assert(irq_clocks(m, (255 - m.irq_counter) as nat) == irq_clocks(m1, (255 - m1.irq_counter) as nat));
        assert(irq_clocks(m, (256 - m.irq_counter) as nat) == irq_clocks(m1, (256 - m1.irq_counter) as nat));
    } else {
        assert(irq_clocks(m, 0) == m);
        let m1 = irq_clocked(m);
        assert(irq_clocks(m1, 0) == m1);
        assert(irq_clocks(m, 1) == m1);
    }
}

/// The number of CPU clocks a scanline-mode prescaler at `p` lasts: three dots per clock,
/// rounded up.
pub open spec fn prescaler_clocks(p: int) -> int {
    (p + 2) / 3
}

/// In scanline mode the counter is clocked once per 341 PPU dots: a prescaler at `p` (1..341)
/// leaves the counter alone for `ceil(p / 3) - 1` CPU clocks and clocks it on the next one,
/// carrying the leftover dots into the next scanline.
pub proof fn lemma_scanline_irq_timing(m: Vrc7)
    requires
        m.irq_enable,
        m.irq_scanline_mode,
        1 <= m.irq_scanline_prescaler <= 341,
    ensures
        irq_clocks(m, (prescaler_clocks(m.irq_scanline_prescaler as int) - 1) as nat) == (Vrc7 {
            irq_scanline_prescaler: (m.irq_scanline_prescaler - 3 * (prescaler_clocks(m.irq_scanline_prescaler as int) - 1)) as i16,
            ..m
        }),
        irq_clocks(m, prescaler_clocks(m.irq_scanline_prescaler as int) as nat) == (Vrc7 {
            irq_scanline_prescaler: (m.irq_scanline_prescaler - 3 * prescaler_clocks(m.irq_scanline_prescaler as int) + 341) as i16,
            ..irq_counter_clocked(m)
        }),
    decreases m.irq_scanline_prescaler,
{
    let p = m.irq_scanline_prescaler as int;
    let k = prescaler_clocks(p);
    if p <= 3 {
        assert(k == 1);
        assert(irq_clocks(m, 0) == m);
        let m1 = irq_clocked(m);
        assert(irq_clocks(m1, 0) == m1);
        assert(irq_clocks(m, 1) == m1);
        assert(m == (Vrc7 { irq_scanline_prescaler: m.irq_scanline_prescaler, ..m }));
    } else {
        let m1 = irq_clocked(m);
        assert(m1 == (Vrc7 { irq_scanline_prescaler: (p - 3) as i16, ..m }));
        lemma_scanline_irq_timing(m1);
        assert(prescaler_clocks(p - 3) == k - 1);
        assert(irq_clocks(m, (k - 1) as nat) == irq_clocks(m1, (k - 2) as nat));
        assert(irq_clocks(m, k as nat) == irq_clocks(m1, (k - 1) as nat));
    }
}

/// The PRG bank registers only ever hold six-bit bank numbers.
pub proof fn lemma_prg_banks_stay_six_bit(m: Vrc7, n: Vrc7, address: u16, data: u8)
    requires
        m.wf(),
        cpu_written(m, n, address, data),
        forall|i: int| 0 <= i < 3 ==> #[trigger] m.prg_banks@[i] < 64,
    ensures
        forall|i: int| 0 <= i < 3 ==> #[trigger] n.prg_banks@[i] < 64,
{
}

proof fn lemma_irq_clocks_add(m: Vrc7, a: nat, b: nat)
    ensures
        irq_clocks(m, a + b) == irq_clocks(irq_clocks(m, a), b),
    decreases a,
{
    if a > 0 {
        lemma_irq_clocks_add(irq_clocked(m), (a - 1) as nat, b);
        assert(irq_clocks(m, a + b) == irq_clocks(irq_clocked(m), (a + b - 1) as nat));
    }
}

proof fn lemma_irq_clocks_snoc(m: Vrc7, n: nat)
    ensures
        irq_clocks(m, n + 1) == irq_clocked(irq_clocks(m, n)),
{
    lemma_irq_clocks_add(m, n, 1);
    let x = irq_clocks(m, n);
    assert(irq_clocks(irq_clocked(x), 0) == irq_clocked(x));
}

/// A raised IRQ stays raised while the mapper only clocks: only CPU writes acknowledge it.
pub proof fn lemma_irq_stays_pending(m: Vrc7, n: nat)
    requires
        m.irq_pending,
    ensures
        irq_clocks(m, n).irq_pending,
    decreases n,
{
    if n > 0 {
        lemma_irq_stays_pending(irq_clocked(m), (n - 1) as nat);
    }
}

proof fn lemma_cycle_irq_prefix(m: Vrc7, n: nat)
    requires
        m.irq_enable,
        !m.irq_scanline_mode,
        !m.irq_pending,
        n <= 255 - m.irq_counter,
    ensures
        irq_clocks(m, n) == (Vrc7 { irq_counter: (m.irq_counter + n) as u8, ..m }),
    decreases n,
{
    if n == 0 {
        assert(irq_clocks(m, 0) == m);
    } else {
        let m1 = irq_clocked(m);
        assert(m1 == (Vrc7 { irq_counter: (m.irq_counter + 1) as u8, ..m }));
        lemma_cycle_irq_prefix(m1, (n - 1) as nat);
    }
}

/// In cycle mode an enabled IRQ counter starting at `c` counts up once per CPU clock with the
/// IRQ quiet for the first `255 - c` clocks; clock `256 - c` raises the IRQ and reloads the
/// latch, and the IRQ then stays raised.
pub proof fn lemma_cycle_irq_schedule(m: Vrc7)
    requires
        m.irq_enable,
        !m.irq_scanline_mode,
        !m.irq_pending,
    ensures
        forall|n: nat| n <= 255 - m.irq_counter ==> {
            &&& (#[trigger] irq_clocks(m, n)).irq_counter == m.irq_counter + n
            &&& !irq_clocks(m, n).irq_pending
        },
        irq_clocks(m, (256 - m.irq_counter) as nat).irq_counter == m.irq_latch,
        forall|n: nat| n >= 256 - m.irq_counter ==> (#[trigger] irq_clocks(m, n)).irq_pending,
{
    assert forall|n: nat| n <= 255 - m.irq_counter implies {
        &&& (#[trigger] irq_clocks(m, n)).irq_counter == m.irq_counter + n
        &&& !irq_clocks(m, n).irq_pending
    } by {
        lemma_cycle_irq_prefix(m, n);
    }
    lemma_cycle_irq_timing(m);
    let k = (256 - m.irq_counter) as nat;
    assert forall|n: nat| n >= 256 - m.irq_counter implies (#[trigger] irq_clocks(m, n)).irq_pending by {
        lemma_irq_clocks_add(m, k, (n - k) as nat);
        lemma_irq_stays_pending(irq_clocks(m, k), (n - k) as nat);
    }
}

/// The mapper after `n` CPU clocks.
pub open spec fn cpu_clocks(m: Vrc7, n: nat) -> Vrc7
    decreases n,
{
    if n == 0 { m } else { cpu_clocks(cpu_clocked(m), (n - 1) as nat) }
}

/// Two mappers agree on the IRQ counter's state.
pub open spec fn same_irq_state(a: Vrc7, b: Vrc7) -> bool {
    &&& a.irq_scanline_prescaler == b.irq_scanline_prescaler
    &&& a.irq_latch == b.irq_latch
    &&& a.irq_scanline_mode == b.irq_scanline_mode
    &&& a.irq_enable == b.irq_enable
    &&& a.irq_enable_after_acknowledgement == b.irq_enable_after_acknowledgement
    &&& a.irq_pending == b.irq_pending
    &&& a.irq_counter == b.irq_counter
}

proof fn lemma_irq_clocks_congruent(a: Vrc7, b: Vrc7, n: nat)
    requires
        same_irq_state(a, b),
    ensures
        same_irq_state(irq_clocks(a, n), irq_clocks(b, n)),
    decreases n,
{
    if n > 0 {
        lemma_irq_clocks_congruent(irq_clocked(a), irq_clocked(b), (n - 1) as nat);
    }
}

/// Clocking the whole mapper moves the IRQ counter exactly as clocking the counter alone:
/// the audio unit has no say in it.
pub proof fn lemma_cpu_clocks_irq_state(m: Vrc7, n: nat)
    ensures
        same_irq_state(cpu_clocks(m, n), irq_clocks(m, n)),
    decreases n,
{
    if n > 0 {
        let m1 = cpu_clocked(m);
        lemma_cpu_clocks_irq_state(m1, (n - 1) as nat);
        lemma_irq_clocks_congruent(m1, irq_clocked(m), (n - 1) as nat);
    }
}

/// The cycle-mode IRQ schedule as `clock_cpu` runs it: from counter `c`, the IRQ flag stays
/// clear for `255 - c` clocks, is raised on clock `256 - c` with the latch reloaded, and
/// stays raised.
pub proof fn lemma_clock_cpu_cycle_irq(m: Vrc7)
    requires
        m.irq_enable,
        !m.irq_scanline_mode,
        !m.irq_pending,
    ensures
        forall|n: nat| n <= 255 - m.irq_counter ==> {
            &&& (#[trigger] cpu_clocks(m, n)).irq_counter == m.irq_counter + n
            &&& !cpu_clocks(m, n).irq_pending
        },
        cpu_clocks(m, (256 - m.irq_counter) as nat).irq_counter == m.irq_latch,
        forall|n: nat| n >= 256 - m.irq_counter ==> (#[trigger] cpu_clocks(m, n)).irq_pending,
{
    lemma_cycle_irq_schedule(m);
    assert forall|n: nat| n <= 255 - m.irq_counter implies {
        &&& (#[trigger] cpu_clocks(m, n)).irq_counter == m.irq_counter + n
        &&& !cpu_clocks(m, n).irq_pending
    } by {
        lemma_cpu_clocks_irq_state(m, n);
        assert(irq_clocks(m, n).irq_counter == m.irq_counter + n);
    }
    lemma_cpu_clocks_irq_state(m, (256 - m.irq_counter) as nat);
    assert forall|n: nat| n >= 256 - m.irq_counter implies (#[trigger] cpu_clocks(m, n)).irq_pending by {
        lemma_cpu_clocks_irq_state(m, n);
        assert(irq_clocks(m, n).irq_pending);
    }
}

/// The IRQ counter clocked `j` times (without the prescaler).
pub open spec fn counter_clocked_times(m: Vrc7, j: nat) -> Vrc7
    decreases j,
{
    if j == 0 { m } else { irq_counter_clocked(counter_clocked_times(m, (j - 1) as nat)) }
}

/// How many times a scanline-mode prescaler starting at `p` has clocked the counter after
/// `n` CPU clocks.
pub open spec fn prescaler_ticks(p: int, n: int) -> int {
    (3 * n - p + 341) / 341
}

proof fn lemma_counter_clocked_times_keeps_mode(m: Vrc7, j: nat)
    ensures
        counter_clocked_times(m, j).irq_enable == m.irq_enable,
        counter_clocked_times(m, j).irq_scanline_mode == m.irq_scanline_mode,
        counter_clocked_times(m, j).irq_scanline_prescaler == m.irq_scanline_prescaler,
    decreases j,
{
    if j > 0 {
        lemma_counter_clocked_times_keeps_mode(m, (j - 1) as nat);
    }
}

proof fn lemma_prescaler_run(m: Vrc7, n: nat)
    requires
        m.irq_enable,
        m.irq_scanline_mode,
        1 <= m.irq_scanline_prescaler <= 341,
    ensures
        1 <= m.irq_scanline_prescaler - 3 * n + 341 * prescaler_ticks(m.irq_scanline_prescaler as int, n as int) <= 341,
        prescaler_ticks(m.irq_scanline_prescaler as int, n as int) >= 0,
        irq_clocks(m, n) == (Vrc7 {
            irq_scanline_prescaler: (m.irq_scanline_prescaler - 3 * n
                + 341 * prescaler_ticks(m.irq_scanline_prescaler as int, n as int)) as i16,
            ..counter_clocked_times(m, prescaler_ticks(m.irq_scanline_prescaler as int, n as int) as nat)
        }),
    decreases n,
{
    let p = m.irq_scanline_prescaler as int;
    if n == 0 {
        assert(prescaler_ticks(p, 0) == 0);
        assert(irq_clocks(m, 0) == m);
        assert(counter_clocked_times(m, 0) == m);
    } else {
        let n1 = (n - 1) as nat;
        lemma_prescaler_run(m, n1);
        let j = prescaler_ticks(p, n1 as int);
        let q = p - 3 * n1 + 341 * j;
        let y = counter_clocked_times(m, j as nat);
        let x = irq_clocks(m, n1);
        lemma_counter_clocked_times_keeps_mode(m, j as nat);
        lemma_irq_clocks_snoc(m, n1);
        assert(x == (Vrc7 { irq_scanline_prescaler: q as i16, ..y }));
        if q <= 3 {
            assert(prescaler_ticks(p, n as int) == j + 1);
            assert(counter_clocked_times(m, (j + 1) as nat) == irq_counter_clocked(y));
            assert(irq_clocked(x) == (Vrc7 { irq_scanline_prescaler: (q - 3 + 341) as i16, ..irq_counter_clocked(y) }));
        } else {
            assert(prescaler_ticks(p, n as int) == j);
            assert(irq_clocked(x) == (Vrc7 { irq_scanline_prescaler: (q - 3) as i16, ..y }));
        }
    }
}

/// In scanline mode the counter is clocked exactly three times in every 341 CPU clocks (three
/// CPU clocks per three PPU dots over three scanlines of 341 dots), and the prescaler is back
/// where it started.
pub proof fn lemma_prescaler_scanline_cycle(m: Vrc7)
    requires
        m.irq_enable,
        m.irq_scanline_mode,
        1 <= m.irq_scanline_prescaler <= 341,
    ensures
        irq_clocks(m, 341) == (Vrc7 {
            irq_scanline_prescaler: m.irq_scanline_prescaler,
            ..counter_clocked_times(m, 3)
        }),
{
    lemma_prescaler_run(m, 341);
    assert(prescaler_ticks(m.irq_scanline_prescaler as int, 341) == 3);
}

/// The CPU address of CHR bank register `k` (0..7): the pairs sit at $A000, $B000, $C000 and
/// $D000, the odd register of a pair at +$08 on submapper 1 (A3) and +$10 otherwise (A4).
pub open spec fn chr_register_cpu_address(submapper: u8, k: int) -> u16 {
    (0xA000 + 0x1000 * (k / 2) + (if k % 2 == 1 { if submapper == 1 { 0x08int } else { 0x10int } } else { 0int })) as u16
}

/// The CPU address of PRG bank register `k` (0..2): $8000, then $8008 (submapper 1) or $8010,
/// then $9000.
pub open spec fn prg_register_cpu_address(submapper: u8, k: int) -> u16 {
    if k == 0 { 0x8000 } else if k == 1 { if submapper == 1 { 0x8008 } else { 0x8010 } } else { 0x9000 }
}

proof fn lemma_register_decoding()
    ensures
        0xA000u16 & 0xF028u16 == 0xA000u16 && 0xA008u16 & 0xF028u16 == 0xA008u16 && 0xA010u16 & 0xF028u16 == 0xA000u16 && 0xB000u16 & 0xF028u16 == 0xB000u16 && 0xB008u16 & 0xF028u16 == 0xB008u16 && 0xB010u16 & 0xF028u16 == 0xB000u16 && 0xC000u16 & 0xF028u16 == 0xC000u16 && 0xC008u16 & 0xF028u16 == 0xC008u16 && 0xC010u16 & 0xF028u16 == 0xC000u16 && 0xD000u16 & 0xF028u16 == 0xD000u16 && 0xD008u16 & 0xF028u16 == 0xD008u16 && 0xD010u16 & 0xF028u16 == 0xD000u16 && 0x8000u16 & 0xF028u16 == 0x8000u16 && 0x8008u16 & 0xF028u16 == 0x8008u16 && 0x8010u16 & 0xF028u16 == 0x8000u16 && 0x9000u16 & 0xF028u16 == 0x9000u16,
        0xA000u16 & 0xF030u16 == 0xA000u16 && 0xA008u16 & 0xF030u16 == 0xA000u16 && 0xA010u16 & 0xF030u16 == 0xA010u16 && 0xB000u16 & 0xF030u16 == 0xB000u16 && 0xB008u16 & 0xF030u16 == 0xB000u16 && 0xB010u16 & 0xF030u16 == 0xB010u16 && 0xC000u16 & 0xF030u16 == 0xC000u16 && 0xC008u16 & 0xF030u16 == 0xC000u16 && 0xC010u16 & 0xF030u16 == 0xC010u16 && 0xD000u16 & 0xF030u16 == 0xD000u16 && 0xD008u16 & 0xF030u16 == 0xD000u16 && 0xD010u16 & 0xF030u16 == 0xD010u16 && 0x8000u16 & 0xF030u16 == 0x8000u16 && 0x8008u16 & 0xF030u16 == 0x8000u16 && 0x8010u16 & 0xF030u16 == 0x8010u16 && 0x9000u16 & 0xF030u16 == 0x9000u16,
{
    assert(0xA000u16 & 0xF028u16 == 0xA000u16 && 0xA008u16 & 0xF028u16 == 0xA008u16 && 0xA010u16 & 0xF028u16 == 0xA000u16 && 0xB000u16 & 0xF028u16 == 0xB000u16 && 0xB008u16 & 0xF028u16 == 0xB008u16 && 0xB010u16 & 0xF028u16 == 0xB000u16 && 0xC000u16 & 0xF028u16 == 0xC000u16 && 0xC008u16 & 0xF028u16 == 0xC008u16 && 0xC010u16 & 0xF028u16 == 0xC000u16 && 0xD000u16 & 0xF028u16 == 0xD000u16 && 0xD008u16 & 0xF028u16 == 0xD008u16 && 0xD010u16 & 0xF028u16 == 0xD000u16 && 0x8000u16 & 0xF028u16 == 0x8000u16 && 0x8008u16 & 0xF028u16 == 0x8008u16 && 0x8010u16 & 0xF028u16 == 0x8000u16 && 0x9000u16 & 0xF028u16 == 0x9000u16) by (bit_vector);
    assert(0xA000u16 & 0xF030u16 == 0xA000u16 && 0xA008u16 & 0xF030u16 == 0xA000u16 && 0xA010u16 & 0xF030u16 == 0xA010u16 && 0xB000u16 & 0xF030u16 == 0xB000u16 && 0xB008u16 & 0xF030u16 == 0xB000u16 && 0xB010u16 & 0xF030u16 == 0xB010u16 && 0xC000u16 & 0xF030u16 == 0xC000u16 && 0xC008u16 & 0xF030u16 == 0xC000u16 && 0xC010u16 & 0xF030u16 == 0xC010u16 && 0xD000u16 & 0xF030u16 == 0xD000u16 && 0xD008u16 & 0xF030u16 == 0xD000u16 && 0xD010u16 & 0xF030u16 == 0xD010u16 && 0x8000u16 & 0xF030u16 == 0x8000u16 && 0x8008u16 & 0xF030u16 == 0x8000u16 && 0x8010u16 & 0xF030u16 == 0x8010u16 && 0x9000u16 & 0xF030u16 == 0x9000u16) by (bit_vector);
}

/// Writing `data` to CHR bank register `k` maps CHR bank `data` into the PPU's 1 KiB window
/// `k` ($0000 + $400 * k) and leaves the other seven windows showing what they showed.
pub proof fn lemma_chr_bank_switch(m: Vrc7, n: Vrc7, k: int, data: u8, o: u16)
    requires
        m.wf(),
        0 <= k < 8,
        o < 0x400,
        cpu_written(m, n, chr_register_cpu_address(m.submapper, k), data),
    ensures
        ppu_read_value(n, (0x400 * k + o) as u16) == banked_read_value(m.chr@, 0x400, data as int, 0x400 * k + o),
        forall|j: int| 0 <= j < 8 && j != k ==>
            #[trigger] ppu_read_value(n, (0x400 * j + o) as u16) == ppu_read_value(m, (0x400 * j + o) as u16),
{
    lemma_register_decoding();
    let a = chr_register_cpu_address(m.submapper, k);
    assert(chr_bank_register(register_address(m.submapper, a)) == Some(k));
    assert forall|j: int| 0 <= j < 8 && j != k implies
        #[trigger] ppu_read_value(n, (0x400 * j + o) as u16) == ppu_read_value(m, (0x400 * j + o) as u16) by {
        assert(((0x400 * j + o) as u16) as int / 0x400 == j);
    }
    assert(((0x400 * k + o) as u16) as int / 0x400 == k);
}

/// Writing `data` to PRG bank register `k` maps PRG ROM bank `data % 64` into the CPU's 8 KiB
/// window `k` ($8000 + $2000 * k) and leaves the other windows showing what they showed.
pub proof fn lemma_prg_bank_registers(m: Vrc7, n: Vrc7, k: int, data: u8, o: u16)
    requires
        m.wf(),
        0 <= k < 3,
        o < 0x2000,
        cpu_written(m, n, prg_register_cpu_address(m.submapper, k), data),
    ensures
        cpu_read_value(n, (0x8000 + 0x2000 * k + o) as u16)
            == banked_read_value(m.prg_rom@, 0x2000, (data % 64) as int, 0x8000 + 0x2000 * k + o),
        forall|j: int| 0 <= j < 4 && j != k ==>
            #[trigger] cpu_read_value(n, (0x8000 + 0x2000 * j + o) as u16) == cpu_read_value(m, (0x8000 + 0x2000 * j + o) as u16),
{
    lemma_register_decoding();
    let a = prg_register_cpu_address(m.submapper, k);
    assert(prg_bank_register(register_address(m.submapper, a)) == Some(k));
    assert forall|j: int| 0 <= j < 4 && j != k implies
        #[trigger] cpu_read_value(n, (0x8000 + 0x2000 * j + o) as u16) == cpu_read_value(m, (0x8000 + 0x2000 * j + o) as u16) by {
        assert(((0x8000 + 0x2000 * j + o) as u16) as int - 0x8000 == 0x2000 * j + o);
    }
}

/// A write to $E000 selects the mirroring by its low two bits: 0 vertical, 1 horizontal,
/// 2 one-screen lower, 3 one-screen upper; nothing else changes.
pub proof fn lemma_mirroring_select(m: Vrc7, n: Vrc7, data: u8)
    requires
        cpu_written(m, n, 0xE000, data),
    ensures
        data % 4 == 0 ==> n.mirroring == Mirroring::Vertical,
        data % 4 == 1 ==> n.mirroring == Mirroring::Horizontal,
        data % 4 == 2 ==> n.mirroring == Mirroring::OneScreenLower,
        data % 4 == 3 ==> n.mirroring == Mirroring::OneScreenUpper,
        n == (Vrc7 { mirroring: n.mirroring, ..m }),
{
    assert(0xE000u16 & 0xF028u16 == 0xE000u16 && 0xE000u16 & 0xF030u16 == 0xE000u16) by (bit_vector);
}

} // verus!
