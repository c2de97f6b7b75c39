//! Tracking of the generation 2 visual frame counter.
//!
//! The game counts vertical blanks in one byte; the tracker adds up how far
//! that byte moved between two reads, modulo 256, into a 32-bit visual frame
//! counter, which restarts at zero when the game restarts.

use vstd::prelude::*;
use crate::reader::{Gen2Reader, gb_byte, gb_le_u16, gb_address_fits, gb_word_fits};

verus! {

/// The abstract state of a generation 2 tracker.
pub struct Gen2RngView {
    pub last_vblank: u8,
    pub vblank_change: u8,
    pub visual_frame: u32,
}

/// How far the vertical blank counter moved from `last` to `current`, modulo 256.
pub open spec fn vblank_delta(last: u8, current: u8) -> u8 {
    vstd::wrapping::u8_specs::wrapping_sub(current, last)
}

/// The tracker after the vertical blank counter was read as `current`.
pub open spec fn frame_advanced(v: Gen2RngView, current: u8) -> Gen2RngView {
    let change = vblank_delta(v.last_vblank, current);
    Gen2RngView {
        last_vblank: current,
        vblank_change: change,
        visual_frame: (v.visual_frame + change) as u32,
    }
}

/// Advancing to the vertical blank count `current` keeps the visual frame in range.
pub open spec fn frame_advance_fits(v: Gen2RngView, current: u8) -> bool {
    v.visual_frame + vblank_delta(v.last_vblank, current) <= u32::MAX
}

/// The tracker after one frame in which the game's vertical blank counter
/// read `current` and its random number generator read `rng`: the visual
/// frame restarts at zero when both read zero, which happens when the game restarts.
pub open spec fn gen2_updated(v: Gen2RngView, current: u8, rng: u16) -> Gen2RngView {
    let advanced = frame_advanced(v, current);
    if current == 0 && rng == 0 {
        Gen2RngView { visual_frame: 0, ..advanced }
    } else {
        advanced
    }
}

/// The layout of a generation 2 reader lets the tracker read the vertical
/// blank counter and the random number generator.
pub open spec fn gen2_layout_fits<G: Gen2Reader>() -> bool {
    &&& gb_address_fits(G::RAM_OFFSET, G::HRAM_OFFSET, G::VBLANK_OFFSET)
    &&& gb_word_fits(G::RAM_OFFSET, G::HRAM_OFFSET, G::RNG_OFFSET)
}

/// A tracker for the generation 2 games.
#[derive(Clone, Copy, Debug, PartialEq, Eq)]
pub struct Gen2Rng {
    last_vblank: u8,
    vblank_change: u8,
    visual_frame: u32,
}

impl View for Gen2Rng {
    type V = Gen2RngView;

    closed spec fn view(&self) -> Gen2RngView {
        Gen2RngView {
            last_vblank: self.last_vblank,
            vblank_change: self.vblank_change,
            visual_frame: self.visual_frame,
        }
    }
}

impl Gen2Rng {
    /// The visual frame counter.
    pub fn get_visual_frame(&self) -> (r: u32)
        ensures
            r == self@.visual_frame,
    {
        self.visual_frame
    }

    /// The vertical blank count read last.
    pub fn get_last_vblank(&self) -> (r: u8)
        ensures
            r == self@.last_vblank,
    {
        self.last_vblank
    }

    /// How far the vertical blank counter moved at the last read.
    pub fn get_vblank_change(&self) -> (r: u8)
        ensures
            r == self@.vblank_change,
    {
        self.vblank_change
    }

    /// Adds how far the vertical blank counter moved, modulo 256, to the
    /// visual frame, and keeps `current_vblank` as the last read.
    pub fn update_visual_frame(&mut self, current_vblank: u8)
        requires
            frame_advance_fits(old(self)@, current_vblank),
        ensures
            final(self)@ == frame_advanced(old(self)@, current_vblank),
    {
        self.vblank_change = current_vblank.wrapping_sub(self.last_vblank);
        self.visual_frame = self.visual_frame + self.vblank_change as u32;
        self.last_vblank = current_vblank;
    }

    /// One frame of tracking: reads the vertical blank counter and advances
    /// the visual frame; restarts the visual frame when the counter and the
    /// game's random number generator both read zero.
    pub fn update<G: Gen2Reader>(&mut self, game: &G)
        requires
            gen2_layout_fits::<G>(),
            frame_advance_fits(
                old(self)@,
                gb_byte(game.memory(), G::RAM_OFFSET, G::HRAM_OFFSET, G::VBLANK_OFFSET),
            ),
        ensures
            final(self)@ == gen2_updated(
                old(self)@,
                gb_byte(game.memory(), G::RAM_OFFSET, G::HRAM_OFFSET, G::VBLANK_OFFSET),
                gb_le_u16(game.memory(), G::RAM_OFFSET, G::HRAM_OFFSET, G::RNG_OFFSET),
            ),
    {
        let current_vblank = game.read_current_vblank();
        self.update_visual_frame(current_vblank);
        if current_vblank == 0 && game.read_rng() == 0 {
            self.visual_frame = 0;
        }
    }
}

impl Default for Gen2Rng {
    /// A tracker at visual frame zero, with the vertical blank counter last read as zero.
    fn default() -> (r: Gen2Rng)
        ensures
            r@ == (Gen2RngView { last_vblank: 0, vblank_change: 0, visual_frame: 0 }),
    {
        Gen2Rng { last_vblank: 0, vblank_change: 0, visual_frame: 0 }
    }
}

/// Reading the same vertical blank count twice in a row moves the visual
/// frame only once: the second read finds no change.
pub proof fn lemma_same_vblank_no_advance(v: Gen2RngView, current: u8)
    ensures
        frame_advanced(frame_advanced(v, current), current).vblank_change == 0,
        frame_advanced(frame_advanced(v, current), current).visual_frame == frame_advanced(
            v,
            current,
        ).visual_frame,
        frame_advanced(frame_advanced(v, current), current).last_vblank == current,
{
}

/// Two reads move the visual frame by the same amount, modulo 256, as one
/// read of the second count would have: the vertical blank counter's moves add up.
pub proof fn lemma_vblank_moves_add_up(v: Gen2RngView, first: u8, second: u8)
    requires
        frame_advance_fits(v, first),
        frame_advance_fits(frame_advanced(v, first), second),
    ensures
        (frame_advanced(frame_advanced(v, first), second).visual_frame - v.visual_frame) % 256
            == vblank_delta(v.last_vblank, second) as int,
{
}

/// The visual frame, modulo 256, is the vertical blank count read last.
pub open spec fn frame_follows_vblank(v: Gen2RngView) -> bool {
    v.visual_frame % 256 == v.last_vblank
}

/// Every tracker reached from the default one through updates keeps its
/// visual frame, modulo 256, at the vertical blank count read last: the
/// default tracker does, and each update keeps it so.
pub proof fn lemma_frame_follows_vblank(v: Gen2RngView, current: u8, rng: u16)
    ensures
        frame_follows_vblank(Gen2RngView { last_vblank: 0, vblank_change: 0, visual_frame: 0 }),
        frame_follows_vblank(v) && frame_advance_fits(v, current) ==> frame_follows_vblank(
            frame_advanced(v, current),
        ),
        frame_follows_vblank(v) && frame_advance_fits(v, current) ==> frame_follows_vblank(
            gen2_updated(v, current, rng),
        ),
{
}

/// One frame of tracking (that keeps the visual frame in range) moves the visual frame on by how far the vertical
/// blank counter moved since the last read, modulo 256, and keeps the count
/// read; it restarts the visual frame at zero only when the counter and the
/// whole 16-bit random number generator both read zero, never while the
/// generator reads anything else.
pub proof fn lemma_update_moves_frame(v: Gen2RngView, current: u8, rng: u16)
    requires
        frame_advance_fits(v, current),
    ensures
        gen2_updated(v, current, rng).last_vblank == current,
        gen2_updated(v, current, rng).vblank_change as int == (current as int - v.last_vblank as int) % 256,
        (current != 0 || rng != 0) ==> gen2_updated(v, current, rng).visual_frame as int == v.visual_frame as int
            + (current as int - v.last_vblank as int) % 256,
        (current == 0 && rng == 0) ==> gen2_updated(v, current, rng).visual_frame == 0,
{
}

} // verus!
