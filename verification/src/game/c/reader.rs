//! The memory layout of Pokémon Crystal on the Virtual Console.

use vstd::prelude::*;
use crate::reader::{Gen2Reader, gb_address_fits, gb_word_fits};
use crate::rng::gen2::gen2_layout_fits;

verus! {

/// A reader of Pokémon Crystal's memory, over the emulator's heap.
#[derive(Clone, Copy, Debug)]
pub struct PokemonCReader {
    heap: &'static [u8],
}

impl PokemonCReader {
    /// A reader over `heap`.
    pub fn new(heap: &'static [u8]) -> (r: PokemonCReader)
        ensures
            r.memory() == heap@,
    {
        PokemonCReader { heap }
    }
}

impl Gen2Reader for PokemonCReader {
    const RAM_OFFSET: usize = 0xA23FAC;
    const HRAM_OFFSET: usize = 0xA2C17C;
    const VBLANK_OFFSET: usize = 0xFF9B;
    const DIV_OFFSET: usize = 0xFF04;
    const RNG_OFFSET: usize = 0xFFE1;
    const TID_OFFSET: usize = 0xD47B;
    const PARTY_OFFSET: usize = 0xDCF4;

    closed spec fn memory(&self) -> Seq<u8> {
        self.heap@
    }

    fn get_slice(&self) -> (s: &[u8]) {
        assert(self.memory() == self.heap@);
        self.heap
    }
}

/// Pokémon Crystal's layout lets the tracker read the vertical blank counter
/// and the random number generator, and every value that the reader reads
/// lies in the heap's address range; the values of the layout.
pub proof fn lemma_crystal_layout()
    ensures
        gen2_layout_fits::<PokemonCReader>(),
        <PokemonCReader as Gen2Reader>::RAM_OFFSET == 0xA23FAC,
        <PokemonCReader as Gen2Reader>::HRAM_OFFSET == 0xA2C17C,
        <PokemonCReader as Gen2Reader>::VBLANK_OFFSET == 0xFF9B,
        <PokemonCReader as Gen2Reader>::RNG_OFFSET == 0xFFE1,
        <PokemonCReader as Gen2Reader>::DIV_OFFSET == 0xFF04,
        <PokemonCReader as Gen2Reader>::TID_OFFSET == 0xD47B,
        <PokemonCReader as Gen2Reader>::PARTY_OFFSET == 0xDCF4,
        gb_address_fits(
            <PokemonCReader as Gen2Reader>::RAM_OFFSET,
            <PokemonCReader as Gen2Reader>::HRAM_OFFSET,
            <PokemonCReader as Gen2Reader>::DIV_OFFSET,
        ),
        gb_word_fits(
            <PokemonCReader as Gen2Reader>::RAM_OFFSET,
            <PokemonCReader as Gen2Reader>::HRAM_OFFSET,
            <PokemonCReader as Gen2Reader>::TID_OFFSET,
        ),
        gb_word_fits(
            <PokemonCReader as Gen2Reader>::RAM_OFFSET,
            <PokemonCReader as Gen2Reader>::HRAM_OFFSET,
            <PokemonCReader as Gen2Reader>::PARTY_OFFSET,
        ),
{
    assert(<PokemonCReader as Gen2Reader>::RAM_OFFSET == 0xA23FAC);
    assert(<PokemonCReader as Gen2Reader>::HRAM_OFFSET == 0xA2C17C);
    assert(<PokemonCReader as Gen2Reader>::VBLANK_OFFSET == 0xFF9B);
    assert(<PokemonCReader as Gen2Reader>::RNG_OFFSET == 0xFFE1);
    assert(<PokemonCReader as Gen2Reader>::DIV_OFFSET == 0xFF04);
    assert(<PokemonCReader as Gen2Reader>::TID_OFFSET == 0xD47B);
    assert(<PokemonCReader as Gen2Reader>::PARTY_OFFSET == 0xDCF4);
}

} // verus!
