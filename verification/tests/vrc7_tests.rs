use lib::cartridge::{choose_file_format, read_failure, select_ines_mapper, FileFormat, INesImage, InesMapper};
use lib::memoryblock::{MemoryBlock, MemoryType};
use lib::mirroring::{
    horizontal_mirroring, mirroring_mode_name, one_screen_lower, one_screen_upper, vertical_mirroring,
    Mirroring,
};
use lib::vrc7::Vrc7;
use lib::vrc7_audio::Vrc7Audio;
use lib::vrc7_channel::{EnvState, Vrc7AudioChannel, DEFAULT_PATCH_TABLE};

fn logsin_table() -> Vec<u16> {
    let mut lut = vec![0u16; 256];
    for n in 0..=255 {
        let i = n as f32 + 0.5;
        let x = i * (std::f32::consts::PI / 2.0) / 256.0;
        lut[n] = (f32::log2(f32::sin(x)) * -256.0).round() as u16;
    }
    lut
}

fn exp_table() -> Vec<u16> {
    let mut lut = vec![0u16; 256];
    for n in 0..=255 {
        let i = n as f32 / 256.0;
        lut[n] = ((f32::exp2(i) * 1024.0) - 1024.0).round() as u16;
    }
    lut
}

fn channel() -> Vrc7AudioChannel {
    Vrc7AudioChannel::new(&logsin_table(), &exp_table())
}

/// 64 KiB of PRG ROM in which every byte holds the number of its 8 KiB bank.
fn numbered_prg_rom() -> MemoryBlock {
    let mut data = vec![0u8; 0x10000];
    for (i, byte) in data.iter_mut().enumerate() {
        *byte = (i / 0x2000) as u8;
    }
    MemoryBlock::new(&data, MemoryType::Rom)
}

fn image(submapper: u8, chr: MemoryType) -> INesImage {
    INesImage {
        mapper_number: 85,
        submapper_number: submapper,
        mirroring: Mirroring::Horizontal,
        prg_rom: numbered_prg_rom(),
        prg_ram: Ok(MemoryBlock::new(&vec![0u8; 0x2000], MemoryType::NvRam)),
        chr: Ok(MemoryBlock::new(&vec![0u8; 0x2000], chr)),
    }
}

fn mapper(submapper: u8) -> Vrc7 {
    match Vrc7::from_ines(image(submapper, MemoryType::Ram), &logsin_table(), &exp_table()) {
        Ok(m) => m,
        Err(_) => panic!("the image is complete"),
    }
}

#[test]
fn tables_fit_the_chip_widths() {
    let logsin = logsin_table();
    let exp = exp_table();
    assert_eq!(logsin[0], 2137);
    assert_eq!(logsin[1], 1731);
    assert_eq!(logsin[255], 0);
    assert_eq!(exp[0], 0);
    assert_eq!(exp[255], 1018);
    assert!(logsin.iter().all(|v| *v < 0x1000));
    assert!(exp.iter().all(|v| *v < 0x400));
}

#[test]
fn logsin_quadrants() {
    let c = channel();
    assert_eq!(c.lookup_logsin(0), 2137);
    assert_eq!(c.lookup_logsin(0x0FF), 0);
    assert_eq!(c.lookup_logsin(0x100), 0);
    assert_eq!(c.lookup_logsin(0x1FF), 2137);
    assert_eq!(c.lookup_logsin(0x200), 0x8000 | 2137);
    assert_eq!(c.lookup_logsin(0x3FE), 0x8000 | 1731);
    // the phase wraps every 1024 steps
    assert_eq!(c.lookup_logsin(0x401), c.lookup_logsin(0x001));
}

#[test]
fn logsin_symmetry_holds_on_the_table() {
    let c = channel();
    for k in 0..0x100usize {
        assert_eq!(c.lookup_logsin(0x100 + k), c.lookup_logsin(0xFF - k));
        assert_eq!(c.lookup_logsin(0x200 + k), 0x8000 | c.lookup_logsin(k));
    }
}

#[test]
fn exp_values() {
    let c = channel();
    assert_eq!(c.lookup_exp(0x0000), 4084);
    assert_eq!(c.lookup_exp(0x0100), 2042);
    assert_eq!(c.lookup_exp(0x0200), 1021);
    assert_eq!(c.lookup_exp(0x8000), -4085);
    assert_eq!(c.lookup_exp(0x1FFF), 0);
}

#[test]
fn exp_sign_is_ones_complement() {
    let c = channel();
    for i in 0..0x2000u16 {
        assert_eq!(c.lookup_exp(i + 0x8000), -c.lookup_exp(i) - 1);
    }
}

#[test]
fn power_on_channel_is_silent() {
    let c = channel();
    assert_eq!(c.output(), 0);
    let audio = Vrc7Audio::new(&logsin_table(), &exp_table());
    assert_eq!(audio.output(), 0);
    assert_eq!(audio.current_channel, 1);
}

#[test]
fn global_counter_records_toggled_bits() {
    let mut c = channel();
    c.clock_global_counter();
    assert_eq!(c.global_counter, 1);
    assert_eq!(c.global_counter_toggled_bits, 1);
    c.clock_global_counter();
    assert_eq!(c.global_counter, 2);
    assert_eq!(c.global_counter_toggled_bits, 3);
    c.clock_global_counter();
    c.clock_global_counter();
    assert_eq!(c.global_counter_toggled_bits, 7);
}

#[test]
fn global_counter_wraps() {
    let mut c = channel();
    c.global_counter = u32::MAX;
    c.clock_global_counter();
    assert_eq!(c.global_counter, 0);
    assert_eq!(c.global_counter_toggled_bits, u32::MAX);
}

#[test]
fn load_patch_decodes_fields() {
    let mut c = channel();
    c.load_patch(&[0xF3, 0x21, 0xC5, 0xDE, 0xE8, 0x81, 0x42, 0x27]);
    assert!(c.modulator_tremolo && c.modulator_vibrato && c.modulator_sustain_enabled && c.modulator_key_scaling);
    assert_eq!(c.modulator_multiplier, 3);
    assert!(!c.carrier_tremolo && !c.carrier_vibrato && c.carrier_sustain_enabled && !c.carrier_key_scaling);
    assert_eq!(c.carrier_multiplier, 1);
    assert_eq!(c.modulator_key_level_scaling, 3);
    assert_eq!(c.modulator_output_level, 5);
    assert_eq!(c.carrier_key_level_scaling, 3);
    assert!(c.carrier_rectified && c.modulator_rectified);
    assert_eq!(c.feedback, 6);
    assert_eq!((c.modulator_attack_rate, c.modulator_decay_rate), (14, 8));
    assert_eq!((c.carrier_attack_rate, c.carrier_decay_rate), (8, 1));
    assert_eq!((c.modulator_sustain_level, c.modulator_release_rate), (4, 2));
    assert_eq!((c.carrier_sustain_level, c.carrier_release_rate), (2, 7));
}

#[test]
fn update_advances_phases() {
    let mut audio = Vrc7Audio::new(&logsin_table(), &exp_table());
    // channel 1: fnum 0x1AB, octave 3, multipliers from the Guitar patch (3 and 1 -> 6 and 2)
    audio.write(0x10, 0xAB);
    audio.write(0x20, 0b0000_0111);
    audio.write(0x30, 0x20);
    assert_eq!(audio.channel1.fnum, 0x1AB);
    assert_eq!(audio.channel1.octave, 3);
    audio.channel1.update();
    assert_eq!(audio.channel1.carrier_phase, (0x1AB * 2 * 8) / 2);
    assert_eq!(audio.channel1.modulator_phase, (0x1AB * 6 * 8) / 2);
    assert_eq!(audio.channel1.global_counter, 1);
}

#[test]
fn phase_wraps_at_nineteen_bits() {
    let mut c = channel();
    c.fnum = 0x1FF;
    c.octave = 7;
    c.carrier_multiplier = 15;
    c.carrier_phase = 0x7FFFF;
    c.update();
    assert_eq!(c.carrier_phase, (0x7FFFF + (0x1FF * 30 * 128) / 2) % 0x80000);
}

#[test]
fn key_on_starts_a_note() {
    let mut audio = Vrc7Audio::new(&logsin_table(), &exp_table());
    audio.write(0x21, 0b0001_0000);
    assert!(audio.channel2.key_on);
    assert_eq!(audio.channel2.carrier_env_state, EnvState::Damp);
    // the carrier is silent (127), so its next update starts the attack
    audio.channel2.update();
    assert_eq!(audio.channel2.carrier_env_state, EnvState::Attack);
    assert_eq!(audio.channel2.modulator_env_state, EnvState::Attack);
    assert_eq!(audio.channel2.modulator_env_level, 127);
}

#[test]
fn key_held_does_not_restart() {
    let mut audio = Vrc7Audio::new(&logsin_table(), &exp_table());
    audio.write(0x22, 0b0001_0000);
    audio.channel3.carrier_env_state = EnvState::Decay;
    audio.write(0x22, 0b0001_0010);
    assert_eq!(audio.channel3.carrier_env_state, EnvState::Decay);
    assert_eq!(audio.channel3.octave, 1);
}

#[test]
fn instant_attack_goes_to_decay() {
    let mut audio = Vrc7Audio::new(&logsin_table(), &exp_table());
    // Vibraphone: both attack rates are 15
    audio.write(0x33, 0xB0);
    audio.write(0x23, 0b0001_0000);
    audio.channel4.update();
    assert_eq!(audio.channel4.carrier_env_state, EnvState::Decay);
    assert_eq!(audio.channel4.carrier_env_level, 0);
    assert_eq!(audio.channel4.modulator_env_state, EnvState::Decay);
    assert_eq!(audio.channel4.modulator_env_level, 0);
    assert_eq!(audio.channel4.carrier_phase, 0);
}

#[test]
fn built_in_instrument_is_loaded() {
    let mut audio = Vrc7Audio::new(&logsin_table(), &exp_table());
    audio.write(0x35, 0xF9);
    assert_eq!(audio.channel6.volume, 9);
    // Sweep: 0x21, 0x72, 0x0D, 0x00, 0xC1, 0xD5, 0x56, 0x06
    assert_eq!(audio.channel6.modulator_multiplier, 1);
    assert_eq!(audio.channel6.carrier_multiplier, 2);
    assert_eq!(audio.channel6.modulator_output_level, 0x0D);
    assert_eq!(audio.channel6.carrier_attack_rate, 0xD);
    assert_eq!(audio.channel6.carrier_release_rate, 6);
    assert_eq!(DEFAULT_PATCH_TABLE[14 * 8], 0x21);
}

#[test]
fn custom_patch_reaches_every_channel_on_instrument_zero() {
    let mut audio = Vrc7Audio::new(&logsin_table(), &exp_table());
    audio.write(0x00, 0x0A);
    assert_eq!(audio.custom_patch[0], 0x0A);
    assert_eq!(audio.channel1.modulator_multiplier, 10);
    assert_eq!(audio.channel6.modulator_multiplier, 10);
    audio.write(0x07, 0x5C);
    assert_eq!(audio.channel3.carrier_sustain_level, 5);
    assert_eq!(audio.channel3.carrier_release_rate, 12);
}

#[test]
fn unknown_audio_register_is_ignored() {
    let mut audio = Vrc7Audio::new(&logsin_table(), &exp_table());
    audio.write(0x16, 0xFF);
    audio.write(0x08, 0xFF);
    audio.write(0x36, 0xFF);
    assert_eq!(audio.custom_patch, [0u8; 8]);
    assert_eq!(audio.channel1.fnum, 0);
    assert_eq!(audio.channel1.volume, 0);
}

#[test]
fn clock_updates_one_channel_every_sixth_clock() {
    let mut audio = Vrc7Audio::new(&logsin_table(), &exp_table());
    audio.clock();
    assert_eq!(audio.channel2.global_counter, 1);
    assert_eq!(audio.current_channel, 2);
    assert_eq!(audio.delay_counter, 5);
    for _ in 0..5 {
        audio.clock();
    }
    assert_eq!(audio.delay_counter, 0);
    assert_eq!(audio.channel3.global_counter, 0);
    audio.clock();
    assert_eq!(audio.channel3.global_counter, 1);
}

#[test]
fn thirty_six_clocks_update_every_channel_once() {
    let mut audio = Vrc7Audio::new(&logsin_table(), &exp_table());
    for _ in 0..36 {
        audio.clock();
    }
    for c in [&audio.channel1, &audio.channel2, &audio.channel3, &audio.channel4, &audio.channel5, &audio.channel6] {
        assert_eq!(c.global_counter, 1);
    }
    assert_eq!(audio.current_channel, 1);
    assert_eq!(audio.delay_counter, 0);
}

#[test]
fn audio_output_stays_in_range() {
    let mut audio = Vrc7Audio::new(&logsin_table(), &exp_table());
    for r in 0..6u8 {
        audio.write(0x10 + r, 0xFF);
        audio.write(0x20 + r, 0b0001_1111);
        audio.write(0x30 + r, (r + 1) << 4);
    }
    for _ in 0..5000 {
        audio.clock();
        let out = audio.output();
        assert!(-1530 <= out && out <= 1530);
    }
}

#[test]
fn memory_block_wrapping_and_banking() {
    let mut ram = MemoryBlock::new(&[1, 2, 3, 4], MemoryType::Ram);
    assert_eq!(ram.len(), 4);
    assert_eq!(ram.wrapping_read(6), Some(3));
    ram.wrapping_write(5, 9);
    assert_eq!(ram.as_vec(), &vec![1, 9, 3, 4]);
    assert_eq!(ram.banked_read(2, 1, 3), Some(4));
    ram.banked_write(2, 3, 0, 7);
    assert_eq!(ram.as_vec(), &vec![1, 9, 7, 4]);
    let mut rom = MemoryBlock::new(&[5, 6], MemoryType::Rom);
    rom.wrapping_write(0, 0);
    rom.banked_write(1, 1, 0, 0);
    assert_eq!(rom.as_vec(), &vec![5, 6]);
    let empty = MemoryBlock::new(&[], MemoryType::Ram);
    assert_eq!(empty.wrapping_read(0), None);
    assert_eq!(empty.banked_read(0x400, 3, 5), None);
}

#[test]
fn mirroring_maps() {
    assert_eq!(horizontal_mirroring(0x2005), 0x005);
    assert_eq!(horizontal_mirroring(0x2405), 0x005);
    assert_eq!(horizontal_mirroring(0x2805), 0x405);
    assert_eq!(horizontal_mirroring(0x2C05), 0x405);
    assert_eq!(vertical_mirroring(0x2405), 0x405);
    assert_eq!(vertical_mirroring(0x2805), 0x005);
    assert_eq!(vertical_mirroring(0x3C05), 0x405);
    assert_eq!(one_screen_lower(0x2C05), 0x005);
    assert_eq!(one_screen_upper(0x2005), 0x405);
    assert_eq!(mirroring_mode_name(Mirroring::OneScreenUpper), "OneScreenUpper");
    assert_eq!(mirroring_mode_name(Mirroring::FourScreen), "FourScreen");
}

#[test]
fn from_ines_power_on_state() {
    let m = mapper(0);
    assert_eq!(m.vram.len(), 0x1000);
    assert_eq!(m.chr_banks, vec![0u8; 8]);
    assert_eq!(m.prg_banks, vec![0u8; 3]);
    assert!(!m.irq_flag());
    assert_eq!(m.mirroring(), Mirroring::Horizontal);
    assert!(m.has_sram());
    assert_eq!(m.get_sram(), vec![0u8; 0x2000]);
}

#[test]
fn from_ines_reports_prg_ram_error_first() {
    let mut ines = image(0, MemoryType::Ram);
    ines.prg_ram = Err(String::from("bad prg ram"));
    ines.chr = Err(String::from("bad chr"));
    match Vrc7::from_ines(ines, &logsin_table(), &exp_table()) {
        Err(e) => assert_eq!(e, "bad prg ram"),
        Ok(_) => panic!("must fail"),
    }
    let mut ines = image(0, MemoryType::Ram);
    ines.chr = Err(String::from("bad chr"));
    match Vrc7::from_ines(ines, &logsin_table(), &exp_table()) {
        Err(e) => assert_eq!(e, "bad chr"),
        Ok(_) => panic!("must fail"),
    }
}

#[test]
fn prg_bank_switching() {
    let mut m = mapper(0);
    assert_eq!(m.debug_read_cpu(0x8000), Some(0));
    assert_eq!(m.debug_read_cpu(0xE000), Some(7));
    assert_eq!(m.debug_read_cpu(0xFFFF), Some(7));
    m.write_cpu(0x8000, 3);
    assert_eq!(m.debug_read_cpu(0x8123), Some(3));
    m.write_cpu(0x8010, 0x45); // masked to 6 bits: 5
    assert_eq!(m.prg_banks[1], 5);
    assert_eq!(m.debug_read_cpu(0xA000), Some(5));
    m.write_cpu(0x9000, 6);
    assert_eq!(m.debug_read_cpu(0xDFFF), Some(6));
    assert_eq!(m.debug_read_cpu(0x5000), None);
}

#[test]
fn submapper_one_decodes_a3() {
    let mut m = mapper(1);
    m.write_cpu(0x8008, 2);
    assert_eq!(m.prg_banks[1], 2);
    m.write_cpu(0x8010, 4); // A4 is not decoded: this is $8000
    assert_eq!(m.prg_banks[0], 4);
    let mut m = mapper(2);
    m.write_cpu(0x8008, 2); // A3 is not decoded: this is $8000
    assert_eq!(m.prg_banks[0], 2);
}

#[test]
fn prg_ram_read_after_write() {
    let mut m = mapper(0);
    m.write_cpu(0x6123, 0x5A);
    assert_eq!(m.debug_read_cpu(0x6123), Some(0x5A));
    assert_eq!(m.get_sram()[0x123], 0x5A);
    m.load_sram(vec![0x11; 0x2000]);
    assert_eq!(m.debug_read_cpu(0x7FFF), Some(0x11));
}

#[test]
fn chr_banking_and_writes() {
    let mut m = mapper(0);
    m.write_cpu(0xA010, 3); // CHR bank 1
    assert_eq!(m.chr_banks[1], 3);
    m.write_ppu(0x0401, 0x77);
    assert_eq!(m.debug_read_ppu(0x0401), Some(0x77));
    // bank 3 is also visible through register 0 once selected
    m.write_cpu(0xA000, 3);
    assert_eq!(m.debug_read_ppu(0x0001), Some(0x77));
    m.write_cpu(0xD010, 9);
    assert_eq!(m.chr_banks[7], 9);
}

#[test]
fn chr_rom_ignores_writes() {
    let mut m = match Vrc7::from_ines(image(0, MemoryType::Rom), &logsin_table(), &exp_table()) {
        Ok(m) => m,
        Err(_) => panic!("the image is complete"),
    };
    m.write_ppu(0x0010, 0x99);
    assert_eq!(m.debug_read_ppu(0x0010), Some(0));
}

#[test]
fn nametable_mirroring_modes() {
    let mut m = mapper(0);
    m.write_ppu(0x2003, 0xAA);
    assert_eq!(m.debug_read_ppu(0x2003), Some(0xAA));
    assert_eq!(m.debug_read_ppu(0x2403), Some(0xAA)); // horizontal: left and right alias
    assert_eq!(m.debug_read_ppu(0x2803), Some(0));
    assert_eq!(m.debug_read_ppu(0x3003), Some(0xAA)); // $3000 repeats $2000
    m.write_cpu(0xE000, 0); // vertical
    assert_eq!(m.mirroring(), Mirroring::Vertical);
    assert_eq!(m.debug_read_ppu(0x2803), Some(0xAA));
    assert_eq!(m.debug_read_ppu(0x2403), Some(0));
    m.write_cpu(0xE000, 2);
    assert_eq!(m.mirroring(), Mirroring::OneScreenLower);
    assert_eq!(m.debug_read_ppu(0x2C03), Some(0xAA));
    m.write_cpu(0xE000, 0xFF);
    assert_eq!(m.mirroring(), Mirroring::OneScreenUpper);
    assert_eq!(m.debug_read_ppu(0x2C03), Some(0));
    m.write_cpu(0xE000, 1);
    assert_eq!(m.mirroring(), Mirroring::Horizontal);
    m.mirroring = Mirroring::FourScreen;
    assert_eq!(m.debug_read_ppu(0x2000), None);
    assert_eq!(m.debug_read_ppu(0x4000), None);
}

#[test]
fn cycle_mode_irq_timing() {
    let mut m = mapper(0);
    m.write_cpu(0xE010, 0xFD); // latch
    m.write_cpu(0xF000, 0b0000_0111); // cycle mode, enabled, re-enable on acknowledge
    assert_eq!(m.irq_counter, 0xFD);
    m.clock_cpu();
    m.clock_cpu();
    assert_eq!(m.irq_counter, 0xFF);
    assert!(!m.irq_flag());
    m.clock_cpu();
    assert!(m.irq_flag());
    assert_eq!(m.irq_counter, 0xFD);
    m.write_cpu(0xF010, 0); // acknowledge
    assert!(!m.irq_flag());
    assert!(m.irq_enable);
}

#[test]
fn scanline_mode_irq_uses_prescaler() {
    let mut m = mapper(0);
    m.write_cpu(0xE010, 0xFF);
    m.write_cpu(0xF000, 0b0000_0010); // scanline mode, enabled, no re-enable
    assert!(m.irq_scanline_mode);
    assert_eq!(m.irq_scanline_prescaler, 341);
    for _ in 0..113 {
        m.clock_cpu();
    }
    assert!(!m.irq_flag());
    assert_eq!(m.irq_scanline_prescaler, 2);
    m.clock_cpu();
    assert!(m.irq_flag());
    assert_eq!(m.irq_scanline_prescaler, 340);
    m.write_cpu(0xF010, 0);
    assert!(!m.irq_flag());
    assert!(!m.irq_enable);
}

#[test]
fn disabling_irq_stops_the_counter() {
    let mut m = mapper(0);
    m.write_cpu(0xF000, 0b0000_0100); // cycle mode, disabled
    m.clock_cpu();
    assert_eq!(m.irq_counter, 0);
    assert!(!m.irq_flag());
}

#[test]
fn audio_port_reaches_the_sound_unit() {
    let mut m = mapper(0);
    m.write_cpu(0x9010, 0x30);
    assert_eq!(m.audio_register, 0x30);
    m.write_cpu(0x9030, 0x2C);
    assert_eq!(m.audio.channel1.volume, 0xC);
    assert_eq!(m.audio.channel1.carrier_multiplier, 1);
    for _ in 0..6 {
        m.clock_cpu();
    }
    assert_eq!(m.audio.channel2.global_counter, 1);
}

#[test]
fn mapper_numbers() {
    assert_eq!(select_ines_mapper(85), Ok(InesMapper::Vrc7));
    assert_eq!(select_ines_mapper(0), Ok(InesMapper::Nrom));
    assert_eq!(select_ines_mapper(26), Ok(InesMapper::Vrc6));
    assert_eq!(select_ines_mapper(8), Err(String::from("Unsupported iNES mapper: 8")));
    assert_eq!(select_ines_mapper(4095), Err(String::from("Unsupported iNES mapper: 4095")));
    assert_eq!(select_ines_mapper(65535), Err(String::from("Unsupported iNES mapper: 65535")));
}

#[test]
fn file_format_choice() {
    assert_eq!(choose_file_format(None, Some("x"), Some("y")), Ok(FileFormat::INes));
    assert_eq!(choose_file_format(Some("a"), None, None), Ok(FileFormat::Nsf));
    assert_eq!(choose_file_format(Some("a"), Some("b"), None), Ok(FileFormat::Fds));
    assert_eq!(
        choose_file_format(Some("bad header"), Some("no NESM"), Some("no FDS")),
        Err(String::from(
            "Unable to open file as any known type, giving up.\nines: bad header\nnsf: no NESM\nfds: no FDS\n"
        ))
    );
    assert_eq!(read_failure("eof"), "Failed to read any data at all, giving up.eof\n");
}

#[test]
fn thirty_six_clocks_from_mid_delay() {
    let mut audio = Vrc7Audio::new(&logsin_table(), &exp_table());
    audio.current_channel = 4;
    audio.delay_counter = 3;
    for _ in 0..36 {
        audio.clock();
    }
    for c in [&audio.channel1, &audio.channel2, &audio.channel3, &audio.channel4, &audio.channel5, &audio.channel6] {
        assert_eq!(c.global_counter, 1);
    }
    assert_eq!(audio.current_channel, 4);
    assert_eq!(audio.delay_counter, 3);
}

#[test]
fn round_robin_index_beyond_six_restarts() {
    let mut audio = Vrc7Audio::new(&logsin_table(), &exp_table());
    audio.current_channel = 9;
    audio.clock();
    assert_eq!(audio.current_channel, 0);
    assert_eq!(audio.delay_counter, 5);
    for c in [&audio.channel1, &audio.channel2, &audio.channel3, &audio.channel4, &audio.channel5, &audio.channel6] {
        assert_eq!(c.global_counter, 0);
    }
}

#[test]
fn released_carrier_only_grows_quieter() {
    let mut audio = Vrc7Audio::new(&logsin_table(), &exp_table());
    audio.write(0x30, 0x30); // Wurly
    audio.write(0x20, 0b0001_0000); // key on
    for _ in 0..200 {
        audio.channel1.update();
    }
    audio.write(0x20, 0); // key off
    let mut level = audio.channel1.carrier_env_level;
    for _ in 0..3000 {
        audio.channel1.update();
        let next = audio.channel1.carrier_env_level;
        assert!(level <= next && next <= level + 2 && next <= 127);
        assert_ne!(audio.channel1.carrier_env_state, EnvState::Damp);
        level = next;
    }
}

#[test]
fn envelope_steps_once_per_period() {
    // rate 12 without key scaling at octave 0: effective rate 48, period 2^(13 - 12) = 2
    let mut c = channel();
    c.key_on = true;
    c.carrier_env_state = EnvState::Damp;
    c.carrier_env_level = 10;
    let mut rises = 0;
    for _ in 0..64 {
        let before = c.carrier_env_level;
        c.update();
        if c.carrier_env_level > before {
            rises += 1;
        }
    }
    // the n-th update sees the counter at n - 1: the even values among 1..63
    assert_eq!(rises, 31);
}

#[test]
fn scanline_prescaler_cycle_of_341_clocks() {
    let mut m = mapper(0);
    m.write_cpu(0xE010, 0x10);
    m.write_cpu(0xF000, 0b0000_0010);
    m.irq_scanline_prescaler = 200;
    for _ in 0..341 {
        m.clock_cpu();
    }
    assert_eq!(m.irq_scanline_prescaler, 200);
    assert_eq!(m.irq_counter, 0x13);
}

#[test]
fn prescaler_far_below_zero_still_runs() {
    let mut m = mapper(0);
    m.write_cpu(0xF000, 0b0000_0010);
    m.irq_scanline_prescaler = -30000;
    m.clock_cpu();
    assert_eq!(m.irq_scanline_prescaler, -30003 + 341);
    assert_eq!(m.irq_counter, 1);
}

#[test]
fn exp_is_monotone_on_the_table() {
    let c = channel();
    let mut previous = c.lookup_exp(0);
    assert_eq!(previous, 4084);
    for i in 1..0x2000u16 {
        let value = c.lookup_exp(i);
        assert!(0 <= value && value <= previous);
        previous = value;
    }
}

#[test]
fn logsin_reads_ten_bits() {
    let c = channel();
    assert_eq!(c.lookup_logsin(0x3FF), 0x8859);
    for i in 0..0x800usize {
        assert_eq!(c.lookup_logsin(i), c.lookup_logsin(i & 0x3FF));
    }
    for j in 0..0x200usize {
        assert_eq!(c.lookup_logsin(j + 0x200), c.lookup_logsin(j) | 0x8000);
    }
}
