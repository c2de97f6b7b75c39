//! Reading the memory of a running game.
//!
//! A Game Boy game runs inside the 3DS's Virtual Console; the emulator keeps the
//! Game Boy's work RAM and high RAM at two places of its heap. A reader names
//! those places and the Game Boy addresses of the values that the tracker needs.

use vstd::prelude::*;

verus! {

/// Game Boy addresses from here on are in high RAM, below it in work RAM.
pub const HRAM_START: usize = 0xF000;

/// The heap address of the Game Boy address `offset`.
pub open spec fn gb_address(ram_offset: usize, hram_offset: usize, offset: usize) -> int {
    if offset < 0xF000 {
        ram_offset + offset
    } else {
        hram_offset + offset
    }
}

/// The heap address of the Game Boy address `offset` is a `usize`.
pub open spec fn gb_address_fits(ram_offset: usize, hram_offset: usize, offset: usize) -> bool {
    gb_address(ram_offset, hram_offset, offset) <= usize::MAX
}

/// The byte of `memory` at `address`, or zero where `memory` holds none.
pub open spec fn byte_or_zero(memory: Seq<u8>, address: int) -> u8 {
    if 0 <= address < memory.len() {
        memory[address]
    } else {
        0
    }
}

/// The byte at the Game Boy address `offset`, or zero where the heap holds none.
pub open spec fn gb_byte(memory: Seq<u8>, ram_offset: usize, hram_offset: usize, offset: usize) -> u8 {
    byte_or_zero(memory, gb_address(ram_offset, hram_offset, offset))
}

/// Both Game Boy addresses `offset` and `offset + 1` have heap addresses that are `usize`s.
pub open spec fn gb_word_fits(ram_offset: usize, hram_offset: usize, offset: usize) -> bool {
    &&& offset < usize::MAX
    &&& gb_address_fits(ram_offset, hram_offset, offset)
    &&& gb_address_fits(ram_offset, hram_offset, (offset + 1) as usize)
}

/// The little-endian 16-bit value at the Game Boy address `offset`.
pub open spec fn gb_le_u16(memory: Seq<u8>, ram_offset: usize, hram_offset: usize, offset: usize) -> u16 {
    (gb_byte(memory, ram_offset, hram_offset, offset) + 0x100 * gb_byte(
        memory,
        ram_offset,
        hram_offset,
        (offset + 1) as usize,
    )) as u16
}

/// The big-endian 16-bit value at the Game Boy address `offset`.
pub open spec fn gb_be_u16(memory: Seq<u8>, ram_offset: usize, hram_offset: usize, offset: usize) -> u16 {
    (0x100 * gb_byte(memory, ram_offset, hram_offset, offset) + gb_byte(
        memory,
        ram_offset,
        hram_offset,
        (offset + 1) as usize,
    )) as u16
}

/// The 16-bit value whose low byte is `low` and whose high byte is `high`.
fn u16_from_bytes(low: u8, high: u8) -> (r: u16)
    ensures
        r == low + 0x100 * high,
{
    low as u16 + (high as u16) * 0x100
}

/// A reader of a generation 2 game's memory.
pub trait Gen2Reader {
    /// Heap address of the Game Boy's work RAM.
    const RAM_OFFSET: usize;
    /// Heap address of the Game Boy's high RAM.
    const HRAM_OFFSET: usize;
    /// Game Boy address of the vertical blank counter.
    const VBLANK_OFFSET: usize;
    /// Game Boy address of the divider register.
    const DIV_OFFSET: usize;
    /// Game Boy address of the random number generator's two bytes.
    const RNG_OFFSET: usize;
    /// Game Boy address of the trainer id.
    const TID_OFFSET: usize;
    /// Game Boy address of the party.
    const PARTY_OFFSET: usize;

    /// The heap that the reader reads.
    spec fn memory(&self) -> Seq<u8>;

    /// The heap that the reader reads.
    fn get_slice(&self) -> (s: &[u8])
        ensures
            s@ == self.memory(),
    ;

    /// The byte of the heap at `offset`, or an error where the heap holds none.
    fn read(&self, offset: usize) -> (r: Result<u8, ()>)
        ensures
            r == (if offset < self.memory().len() {
                Ok::<u8, ()>(self.memory()[offset as int])
            } else {
                Err::<u8, ()>(())
            }),
    {
        let heap = self.get_slice();
        if offset < heap.len() {
            Ok(heap[offset])
        } else {
            Err(())
        }
    }

    /// The byte of the heap at `offset`, or zero where the heap holds none.
    fn default_read(&self, offset: usize) -> (r: u8)
        ensures
            r == byte_or_zero(self.memory(), offset as int),
    {
        let heap = self.get_slice();
        if offset < heap.len() {
            heap[offset]
        } else {
            0
        }
    }

    /// The byte at the Game Boy address `offset`.
    fn read_gb(&self, offset: usize) -> (r: u8)
        requires
            gb_address_fits(Self::RAM_OFFSET, Self::HRAM_OFFSET, offset),
        ensures
            r == gb_byte(self.memory(), Self::RAM_OFFSET, Self::HRAM_OFFSET, offset),
    {
        self.default_read(
            if offset < HRAM_START {
                Self::RAM_OFFSET + offset
            } else {
                Self::HRAM_OFFSET + offset
            },
        )
    }

    /// The vertical blank counter.
    fn read_current_vblank(&self) -> (r: u8)
        requires
            gb_address_fits(Self::RAM_OFFSET, Self::HRAM_OFFSET, Self::VBLANK_OFFSET),
        ensures
            r == gb_byte(self.memory(), Self::RAM_OFFSET, Self::HRAM_OFFSET, Self::VBLANK_OFFSET),
    {
        self.read_gb(Self::VBLANK_OFFSET)
    }

    /// The divider register.
    fn read_div(&self) -> (r: u8)
        requires
            gb_address_fits(Self::RAM_OFFSET, Self::HRAM_OFFSET, Self::DIV_OFFSET),
        ensures
            r == gb_byte(self.memory(), Self::RAM_OFFSET, Self::HRAM_OFFSET, Self::DIV_OFFSET),
    {
        self.read_gb(Self::DIV_OFFSET)
    }

    /// The random number generator's state, little-endian.
    fn read_rng(&self) -> (r: u16)
        requires
            gb_word_fits(Self::RAM_OFFSET, Self::HRAM_OFFSET, Self::RNG_OFFSET),
        ensures
            r == gb_le_u16(self.memory(), Self::RAM_OFFSET, Self::HRAM_OFFSET, Self::RNG_OFFSET),
    {
        u16_from_bytes(self.read_gb(Self::RNG_OFFSET), self.read_gb(Self::RNG_OFFSET + 1))
    }

    /// The trainer id, big-endian.
    fn read_tid(&self) -> (r: u16)
        requires
            gb_word_fits(Self::RAM_OFFSET, Self::HRAM_OFFSET, Self::TID_OFFSET),
        ensures
            r == gb_be_u16(self.memory(), Self::RAM_OFFSET, Self::HRAM_OFFSET, Self::TID_OFFSET),
    {
        u16_from_bytes(self.read_gb(Self::TID_OFFSET + 1), self.read_gb(Self::TID_OFFSET))
    }

    /// The species of the first party member, little-endian.
    fn read_starter(&self) -> (r: u16)
        requires
            gb_word_fits(Self::RAM_OFFSET, Self::HRAM_OFFSET, Self::PARTY_OFFSET),
        ensures
            r == gb_le_u16(self.memory(), Self::RAM_OFFSET, Self::HRAM_OFFSET, Self::PARTY_OFFSET),
    {
        u16_from_bytes(self.read_gb(Self::PARTY_OFFSET), self.read_gb(Self::PARTY_OFFSET + 1))
    }
}

/// Work RAM holds the Game Boy addresses below `HRAM_START`, high RAM the
/// others; the random number generator and the party word are little-endian
/// (low byte first) and the trainer id big-endian (high byte first).
pub proof fn lemma_gb_layout(memory: Seq<u8>, ram_offset: usize, hram_offset: usize, offset: usize)
    requires
        offset < usize::MAX,
    ensures
        offset < 0xF000 ==> gb_byte(memory, ram_offset, hram_offset, offset) == byte_or_zero(
            memory,
            ram_offset + offset,
        ),
        offset >= 0xF000 ==> gb_byte(memory, ram_offset, hram_offset, offset) == byte_or_zero(
            memory,
            hram_offset + offset,
        ),
        gb_le_u16(memory, ram_offset, hram_offset, offset) % 256 == gb_byte(memory, ram_offset, hram_offset, offset),
        gb_le_u16(memory, ram_offset, hram_offset, offset) / 256 == gb_byte(
            memory,
            ram_offset,
            hram_offset,
            (offset + 1) as usize,
        ),
        gb_be_u16(memory, ram_offset, hram_offset, offset) / 256 == gb_byte(memory, ram_offset, hram_offset, offset),
        gb_be_u16(memory, ram_offset, hram_offset, offset) % 256 == gb_byte(
            memory,
            ram_offset,
            hram_offset,
            (offset + 1) as usize,
        ),
        (0 <= ram_offset + offset < memory.len() && offset < 0xF000) ==> gb_byte(memory, ram_offset, hram_offset, offset)
            == memory[ram_offset + offset],
        !(0 <= gb_address(ram_offset, hram_offset, offset) < memory.len()) ==> gb_byte(memory, ram_offset, hram_offset, offset) == 0,
{
}

} // verus!
