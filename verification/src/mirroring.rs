//! Nametable mirroring: how the PPU's four logical nametables map onto the console's
//! two kilobytes of nametable RAM.
use vstd::prelude::*;

verus! {

#[derive(PartialEq, Eq, Structural, Clone, Copy, Debug)]
pub enum Mirroring {
    Horizontal,
    Vertical,
    OneScreenLower,
    OneScreenUpper,
    FourScreen,
}

pub fn mirroring_mode_name(mode: Mirroring) -> (name: &'static str)
    ensures
        mode == Mirroring::Horizontal ==> name@ == "Horizontal"@,
        mode == Mirroring::Vertical ==> name@ == "Vertical"@,
        mode == Mirroring::OneScreenLower ==> name@ == "OneScreenLower"@,
        mode == Mirroring::OneScreenUpper ==> name@ == "OneScreenUpper"@,
        mode == Mirroring::FourScreen ==> name@ == "FourScreen"@,
{
    match mode {
        Mirroring::Horizontal => "Horizontal",
        Mirroring::Vertical => "Vertical",
        Mirroring::OneScreenLower => "OneScreenLower",
        Mirroring::OneScreenUpper => "OneScreenUpper",
        Mirroring::FourScreen => "FourScreen",
    }
}

/// Horizontal mirroring: the top two nametables share the first kilobyte, the bottom two
/// the second.
pub fn horizontal_mirroring(address: u16) -> (r: u16)
    ensures
        r == ((address / 0x800) % 2) * 0x400 + address % 0x400,
{
    let low = address & 0x3FF;
    let within = address & 0x0FFF;
    assert(low == address % 0x400 && within == address % 0x1000) by (bit_vector)
        requires low == address & 0x3FF, within == address & 0x0FFF;
    match within {
        0x000..=0x3FF => low,
        0x400..=0x7FF => low,
        0x800..=0xBFF => low + 0x400,
        _ => low + 0x400,
    }
}

/// Vertical mirroring: the left two nametables share the first kilobyte, the right two the
/// second.
pub fn vertical_mirroring(address: u16) -> (r: u16)
    ensures
        r == ((address / 0x400) % 2) * 0x400 + address % 0x400,
{
    let low = address & 0x3FF;
    let within = address & 0x0FFF;
    assert(low == address % 0x400 && within == address % 0x1000) by (bit_vector)
        requires low == address & 0x3FF, within == address & 0x0FFF;
    match within {
        0x000..=0x3FF => low,
        0x400..=0x7FF => low + 0x400,
        0x800..=0xBFF => low,
        _ => low + 0x400,
    }
}

/// Every nametable shows the first kilobyte.
pub fn one_screen_lower(address: u16) -> (r: u16)
    ensures
        r == address % 0x400,
{
    let r = address & 0x3FF;
    assert(r == address % 0x400) by (bit_vector) requires r == address & 0x3FF;
    r
}

/// Every nametable shows the second kilobyte.
pub fn one_screen_upper(address: u16) -> (r: u16)
    ensures
        r == 0x400 + address % 0x400,
{
    let low = address & 0x3FF;
    assert(low == address % 0x400) by (bit_vector) requires low == address & 0x3FF;
    low + 0x400
}

/// The nametable RAM index that `address` reaches under `mode`; none for four-screen
/// mirroring, which needs RAM on the cartridge.
pub open spec fn nametable_index(mode: Mirroring, address: u16) -> Option<int> {
    match mode {
        Mirroring::Horizontal => Some(((address / 0x800) % 2) * 0x400 + address % 0x400),
        Mirroring::Vertical => Some(((address / 0x400) % 2) * 0x400 + address % 0x400),
        Mirroring::OneScreenLower => Some(address as int % 0x400),
        Mirroring::OneScreenUpper => Some(0x400 + address % 0x400),
        Mirroring::FourScreen => None,
    }
}

} // verus!
