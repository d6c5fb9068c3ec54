//! Choosing a mapper for a cartridge image, and the loader's error messages.
use vstd::prelude::*;
use crate::memoryblock::MemoryBlock;
use crate::mirroring::Mirroring;

verus! {

/// What the mapper logic reads from a parsed iNES file: the header fields and the memory
/// blocks it describes (PRG RAM and CHR can fail to build, with a message).
pub struct INesImage {
    pub mapper_number: u16,
    pub submapper_number: u8,
    pub mirroring: Mirroring,
    pub prg_rom: MemoryBlock,
    pub prg_ram: Result<MemoryBlock, String>,
    pub chr: Result<MemoryBlock, String>,
}

/// The boards the loader knows, by the iNES mapper numbers that select them.
#[derive(PartialEq, Eq, Structural, Clone, Copy, Debug)]
pub enum InesMapper {
    Nrom,
    Mmc1,
    UxRom,
    CnRom,
    Mmc3,
    Mmc5,
    AxRom,
    PxRom,
    Namco163,
    Vrc6,
    Action53,
    INes31,
    BnRom,
    GxRom,
    Fme7,
    Vrc7,
}

/// The board for an iNES mapper number, if the loader supports it.
pub open spec fn ines_mapper_for_number(mapper_number: u16) -> Option<InesMapper> {
    if mapper_number == 0 { Some(InesMapper::Nrom) }
    else if mapper_number == 1 { Some(InesMapper::Mmc1) }
    else if mapper_number == 2 { Some(InesMapper::UxRom) }
    else if mapper_number == 3 { Some(InesMapper::CnRom) }
    else if mapper_number == 4 { Some(InesMapper::Mmc3) }
    else if mapper_number == 5 { Some(InesMapper::Mmc5) }
    else if mapper_number == 7 { Some(InesMapper::AxRom) }
    else if mapper_number == 9 { Some(InesMapper::PxRom) }
    else if mapper_number == 19 { Some(InesMapper::Namco163) }
    else if mapper_number == 24 || mapper_number == 26 { Some(InesMapper::Vrc6) }
    else if mapper_number == 28 { Some(InesMapper::Action53) }
    else if mapper_number == 31 { Some(InesMapper::INes31) }
    else if mapper_number == 34 { Some(InesMapper::BnRom) }
    else if mapper_number == 66 { Some(InesMapper::GxRom) }
    else if mapper_number == 69 { Some(InesMapper::Fme7) }
    else if mapper_number == 85 { Some(InesMapper::Vrc7) }
    else { None }
}

/// The character of decimal digit `d`.
pub open spec fn digit_char(d: nat) -> char {
    if d == 0 { '0' }
    else if d == 1 { '1' }
    else if d == 2 { '2' }
    else if d == 3 { '3' }
    else if d == 4 { '4' }
    else if d == 5 { '5' }
    else if d == 6 { '6' }
    else if d == 7 { '7' }
    else if d == 8 { '8' }
    else { '9' }
}

/// The decimal representation of `n`, without leading zeros.
pub open spec fn decimal(n: nat) -> Seq<char>
    decreases n,
{
    if n < 10 { seq![digit_char(n)] } else { decimal(n / 10).push(digit_char(n % 10)) }
}

/// The message for an iNES file whose mapper the loader does not support.
pub open spec fn unsupported_mapper_message(mapper_number: u16) -> Seq<char> {
    "Unsupported iNES mapper: "@ + decimal(mapper_number as nat)
}

fn digit_str(d: u16) -> (s: &'static str)
    requires
        d < 10,
    ensures
        s@ == seq![digit_char(d as nat)],
{
    proof {
        reveal_strlit("0");
        reveal_strlit("1");
        reveal_strlit("2");
        reveal_strlit("3");
        reveal_strlit("4");
        reveal_strlit("5");
        reveal_strlit("6");
        reveal_strlit("7");
        reveal_strlit("8");
        reveal_strlit("9");
    }
    match d {
        0 => "0",
        1 => "1",
        2 => "2",
        3 => "3",
        4 => "4",
        5 => "5",
        6 => "6",
        7 => "7",
        8 => "8",
        _ => "9",
    }
}

fn append_decimal(s: &mut String, n: u16)
    ensures
        final(s)@ == old(s)@ + decimal(n as nat),
    decreases n,
{
    if n >= 10 {
        append_decimal(s, n / 10);
    }
    s.append(digit_str(n % 10));
    assert(final(s)@ =~= old(s)@ + decimal(n as nat)) by {
        if n >= 10 {
            assert(decimal(n as nat) == decimal((n / 10) as nat).push(digit_char((n % 10) as nat)));
        }
    }
}

/// Picks the board for an iNES mapper number; unsupported numbers are refused with a message
/// that names the number.
pub fn select_ines_mapper(mapper_number: u16) -> (r: Result<InesMapper, String>)
    ensures
        r is Ok <==> ines_mapper_for_number(mapper_number) is Some,
        r matches Ok(board) ==> ines_mapper_for_number(mapper_number) == Some(board),
        r matches Err(message) ==> message@ == unsupported_mapper_message(mapper_number),
        mapper_number == 0 ==> r == Ok::<InesMapper, String>(InesMapper::Nrom),
        mapper_number == 1 ==> r == Ok::<InesMapper, String>(InesMapper::Mmc1),
        mapper_number == 2 ==> r == Ok::<InesMapper, String>(InesMapper::UxRom),
        mapper_number == 3 ==> r == Ok::<InesMapper, String>(InesMapper::CnRom),
        mapper_number == 4 ==> r == Ok::<InesMapper, String>(InesMapper::Mmc3),
        mapper_number == 5 ==> r == Ok::<InesMapper, String>(InesMapper::Mmc5),
        mapper_number == 7 ==> r == Ok::<InesMapper, String>(InesMapper::AxRom),
        mapper_number == 9 ==> r == Ok::<InesMapper, String>(InesMapper::PxRom),
        mapper_number == 19 ==> r == Ok::<InesMapper, String>(InesMapper::Namco163),
        mapper_number == 24 ==> r == Ok::<InesMapper, String>(InesMapper::Vrc6),
        mapper_number == 26 ==> r == Ok::<InesMapper, String>(InesMapper::Vrc6),
        mapper_number == 28 ==> r == Ok::<InesMapper, String>(InesMapper::Action53),
        mapper_number == 31 ==> r == Ok::<InesMapper, String>(InesMapper::INes31),
        mapper_number == 34 ==> r == Ok::<InesMapper, String>(InesMapper::BnRom),
        mapper_number == 66 ==> r == Ok::<InesMapper, String>(InesMapper::GxRom),
        mapper_number == 69 ==> r == Ok::<InesMapper, String>(InesMapper::Fme7),
        mapper_number == 85 ==> r == Ok::<InesMapper, String>(InesMapper::Vrc7),
{
    let board = match mapper_number {
        0 => InesMapper::Nrom,
        1 => InesMapper::Mmc1,
        2 => InesMapper::UxRom,
        3 => InesMapper::CnRom,
        4 => InesMapper::Mmc3,
        5 => InesMapper::Mmc5,
        7 => InesMapper::AxRom,
        9 => InesMapper::PxRom,
        19 => InesMapper::Namco163,
        24 => InesMapper::Vrc6,
        26 => InesMapper::Vrc6,
        28 => InesMapper::Action53,
        31 => InesMapper::INes31,
        34 => InesMapper::BnRom,
        66 => InesMapper::GxRom,
        69 => InesMapper::Fme7,
        85 => InesMapper::Vrc7,
        _ => {
            let mut message = String::from_str("Unsupported iNES mapper: ");
            append_decimal(&mut message, mapper_number);
            return Err(message);
        },
    };
    Ok(board)
}

/// The message when reading the file failed, with the reader's own explanation.
pub open spec fn read_failure_message(detail: Seq<char>) -> Seq<char> {
    "Failed to read any data at all, giving up."@ + detail + "\n"@
}

pub fn read_failure(detail: &str) -> (message: String)
    ensures
        message@ == read_failure_message(detail@),
{
    let mut message = String::from_str("Failed to read any data at all, giving up.");
    message.append(detail);
    message.append("\n");
    message
}

/// The file formats the loader tries, in order.
#[derive(PartialEq, Eq, Structural, Clone, Copy, Debug)]
pub enum FileFormat {
    INes,
    Nsf,
    Fds,
}

/// The message when no format could read the file, with each format's complaint.
pub open spec fn unknown_format_message(ines_error: Seq<char>, nsf_error: Seq<char>, fds_error: Seq<char>) -> Seq<char> {
    "Unable to open file as any known type, giving up.\n"@
        + "ines: "@ + ines_error + "\n"@
        + "nsf: "@ + nsf_error + "\n"@
        + "fds: "@ + fds_error + "\n"@
}

/// Decides how a file is opened from the outcome of each format's parser (`None` where the
/// parser accepted the file, its error message otherwise): the first accepting format of
/// iNES, NSF and FDS wins; if none accepts, the messages are combined.
pub fn choose_file_format(ines_error: Option<&str>, nsf_error: Option<&str>, fds_error: Option<&str>)
    -> (r: Result<FileFormat, String>)
    ensures
        ines_error is None ==> r == Ok::<FileFormat, String>(FileFormat::INes),
        ines_error is Some && nsf_error is None ==> r == Ok::<FileFormat, String>(FileFormat::Nsf),
        ines_error is Some && nsf_error is Some && fds_error is None
            ==> r == Ok::<FileFormat, String>(FileFormat::Fds),
        r is Err <==> (ines_error is Some && nsf_error is Some && fds_error is Some),
        r matches Err(message) ==> message@ == unknown_format_message(
            ines_error->0@, nsf_error->0@, fds_error->0@),
{
    let ines_text = match ines_error {
        None => return Ok(FileFormat::INes),
        Some(e) => e,
    };
    let nsf_text = match nsf_error {
        None => return Ok(FileFormat::Nsf),
        Some(e) => e,
    };
    let fds_text = match fds_error {
        None => return Ok(FileFormat::Fds),
        Some(e) => e,
    };
    let mut message = String::from_str("Unable to open file as any known type, giving up.\n");
    message.append("ines: ");
    message.append(ines_text);
    message.append("\n");
    message.append("nsf: ");
    message.append(nsf_text);
    message.append("\n");
    message.append("fds: ");
    message.append(fds_text);
    message.append("\n");
    Err(message)
}

/// The iNES mapper numbers of the supported boards: 0 NROM, 1 MMC1, 2 UxROM, 3 CNROM,
/// 4 MMC3, 5 MMC5, 7 AxROM, 9 PxROM, 19 Namco 163, 24 and 26 VRC6, 28 Action 53, 31,
/// 34 BNROM, 66 GxROM, 69 FME-7, 85 VRC7; every other number is unsupported.
pub proof fn lemma_ines_mapper_numbers(n: u16)
    ensures
        ines_mapper_for_number(0) == Some(InesMapper::Nrom),
        ines_mapper_for_number(1) == Some(InesMapper::Mmc1),
        ines_mapper_for_number(2) == Some(InesMapper::UxRom),
        ines_mapper_for_number(3) == Some(InesMapper::CnRom),
        ines_mapper_for_number(4) == Some(InesMapper::Mmc3),
        ines_mapper_for_number(5) == Some(InesMapper::Mmc5),
        ines_mapper_for_number(7) == Some(InesMapper::AxRom),
        ines_mapper_for_number(9) == Some(InesMapper::PxRom),
        ines_mapper_for_number(19) == Some(InesMapper::Namco163),
        ines_mapper_for_number(24) == Some(InesMapper::Vrc6),
        ines_mapper_for_number(26) == Some(InesMapper::Vrc6),
        ines_mapper_for_number(28) == Some(InesMapper::Action53),
        ines_mapper_for_number(31) == Some(InesMapper::INes31),
        ines_mapper_for_number(34) == Some(InesMapper::BnRom),
        ines_mapper_for_number(66) == Some(InesMapper::GxRom),
        ines_mapper_for_number(69) == Some(InesMapper::Fme7),
        ines_mapper_for_number(85) == Some(InesMapper::Vrc7),
        ines_mapper_for_number(n) is Some <==> (n <= 5 || n == 7 || n == 9 || n == 19 || n == 24
            || n == 26 || n == 28 || n == 31 || n == 34 || n == 66 || n == 69 || n == 85),
        forall|a: u16, b: u16| #[trigger] ines_mapper_for_number(a) is Some && #[trigger] ines_mapper_for_number(b) is Some
            && ines_mapper_for_number(a) == ines_mapper_for_number(b) && a != b ==> (a == 24 && b == 26) || (a == 26 && b == 24),
{
}

} // verus!
