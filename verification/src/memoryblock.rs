//! A block of cartridge memory (PRG ROM, PRG RAM, CHR ROM or CHR RAM) with the banked and
//! wrapping access patterns that mappers use.
use vstd::prelude::*;

verus! {

#[derive(PartialEq, Eq, Structural, Clone, Copy, Debug)]
pub enum MemoryType {
    Rom,
    Ram,
    NvRam,
}

pub struct MemoryBlock {
    bytes: Vec<u8>,
    memory_type: MemoryType,
}

impl View for MemoryBlock {
    type V = Seq<u8>;

    closed spec fn view(&self) -> Seq<u8> {
        self.bytes@
    }
}

/// A read that wraps the address around the block's size; an empty block reads nothing.
pub open spec fn wrapping_read_value(bytes: Seq<u8>, address: int) -> Option<u8> {
    if bytes.len() == 0 { None } else { Some(bytes[address % bytes.len() as int]) }
}

/// The address of `offset` inside bank `bank_index` of `bank_size` bytes; the offset wraps
/// within its bank.
pub open spec fn banked_address(bank_size: int, bank_index: int, offset: int) -> int {
    bank_size * bank_index + offset % bank_size
}

/// A banked read, which wraps the banked address around the block's size.
pub open spec fn banked_read_value(bytes: Seq<u8>, bank_size: int, bank_index: int, offset: int) -> Option<u8> {
    wrapping_read_value(bytes, banked_address(bank_size, bank_index, offset))
}

/// The contents after writing `data` at the wrapped `address`; ROM and empty blocks ignore
/// writes.
pub open spec fn wrapping_write_value(bytes: Seq<u8>, writable: bool, address: int, data: u8) -> Seq<u8> {
    if bytes.len() == 0 || !writable { bytes } else { bytes.update(address % bytes.len() as int, data) }
}

/// Whether a banked access at these coordinates is free of arithmetic overflow.
pub open spec fn banked_access_ok(bank_size: usize, bank_index: usize) -> bool {
    bank_size > 0 && bank_size * bank_index + bank_size <= usize::MAX
}

impl MemoryBlock {
    pub closed spec fn kind(&self) -> MemoryType {
        self.memory_type
    }

    /// ROM ignores writes; RAM and battery-backed RAM accept them.
    pub open spec fn is_writable(&self) -> bool {
        self.kind() != MemoryType::Rom
    }

    pub fn new(data: &[u8], memory_type: MemoryType) -> (block: MemoryBlock)
        ensures
            block@ == data@,
            block.kind() == memory_type,
    {
        MemoryBlock { bytes: vstd::slice::slice_to_vec(data), memory_type: memory_type }
    }

    pub fn len(&self) -> (r: usize)
        ensures
            r == self@.len(),
    {
        self.bytes.len()
    }

    pub fn wrapping_read(&self, address: usize) -> (r: Option<u8>)
        ensures
            r == wrapping_read_value(self@, address as int),
    {
        if self.bytes.len() == 0 {
            return None;
        }
        Some(self.bytes[address % self.bytes.len()])
    }

    pub fn wrapping_write(&mut self, address: usize, data: u8)
        ensures
            final(self)@ == wrapping_write_value(old(self)@, old(self).is_writable(), address as int, data),
            final(self).kind() == old(self).kind(),
    {
        if self.bytes.len() == 0 {
            return;
        }
        let len = self.bytes.len();
        match self.memory_type {
            MemoryType::Ram | MemoryType::NvRam => {
                self.bytes.set(address % len, data);
            },
            MemoryType::Rom => {},
        }
    }

    pub fn banked_read(&self, bank_size: usize, bank_index: usize, offset: usize) -> (r: Option<u8>)
        requires
            banked_access_ok(bank_size, bank_index),
        ensures
            r == banked_read_value(self@, bank_size as int, bank_index as int, offset as int),
    {
        if self.bytes.len() == 0 {
            return None;
        }
        assert(bank_size * bank_index <= usize::MAX - bank_size) by (nonlinear_arith)
            requires bank_size * bank_index + bank_size <= usize::MAX;
        let effective_address = (bank_size * bank_index) + (offset % bank_size);
        Some(self.bytes[effective_address % self.bytes.len()])
    }

    pub fn banked_write(&mut self, bank_size: usize, bank_index: usize, offset: usize, data: u8)
        requires
            banked_access_ok(bank_size, bank_index),
        ensures
            final(self)@ == wrapping_write_value(old(self)@, old(self).is_writable(),
                banked_address(bank_size as int, bank_index as int, offset as int), data),
            final(self).kind() == old(self).kind(),
    {
        if self.bytes.len() == 0 {
            return;
        }
        assert(bank_size * bank_index <= usize::MAX - bank_size) by (nonlinear_arith)
            requires bank_size * bank_index + bank_size <= usize::MAX;
        let effective_address = (bank_size * bank_index) + (offset % bank_size);
        let len = self.bytes.len();
        match self.memory_type {
            MemoryType::Ram | MemoryType::NvRam => {
                self.bytes.set(effective_address % len, data);
            },
            MemoryType::Rom => {},
        }
    }

    pub fn as_vec(&self) -> (r: &Vec<u8>)
        ensures
            r@ == self@,
    {
        &self.bytes
    }

    /// Replaces the whole contents, keeping the memory type (used to load saved RAM).
    pub fn as_mut_vec(&mut self) -> (r: &mut Vec<u8>)
        ensures
            r@ == old(self)@,
            final(self)@ == final(r)@,
            final(self).kind() == old(self).kind(),
    {
        &mut self.bytes
    }
}

} // verus!
