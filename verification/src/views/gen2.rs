//! The generation 2 views: a network view on the left of the top screen and an
//! RNG view on its right, each shown or hidden by its own button combination.

use vstd::prelude::*;
use crate::reader::{Gen2Reader, gb_byte, gb_le_u16};
use crate::rng::gen2::{Gen2Rng, gen2_layout_fits, frame_advance_fits, gen2_updated};

verus! {

/// What shows on the left of the top screen.
#[derive(Clone, Copy, Debug, PartialEq, Eq, Structural)]
pub enum LeftGen2View {
    Hidden,
    NetworkView,
}

/// What shows on the right of the top screen.
#[derive(Clone, Copy, Debug, PartialEq, Eq, Structural)]
pub enum RightGen2View {
    Hidden,
    RngView,
}

/// The right view after a frame in which its combination was pressed or not.
pub open spec fn toggled_right(view: RightGen2View, toggle: bool) -> RightGen2View {
    if toggle {
        match view {
            RightGen2View::RngView => RightGen2View::Hidden,
            RightGen2View::Hidden => RightGen2View::RngView,
        }
    } else {
        view
    }
}

/// The left view after a frame in which its combination was pressed or not.
pub open spec fn toggled_left(view: LeftGen2View, toggle: bool) -> LeftGen2View {
    if toggle {
        match view {
            LeftGen2View::NetworkView => LeftGen2View::Hidden,
            LeftGen2View::Hidden => LeftGen2View::NetworkView,
        }
    } else {
        view
    }
}

/// The views of a generation 2 game.
#[derive(Clone, Copy, Debug, PartialEq, Eq, Structural)]
pub struct Gen2Views {
    pub left_view: LeftGen2View,
    pub right_view: RightGen2View,
}

impl Default for Gen2Views {
    /// Both views hidden.
    fn default() -> (r: Gen2Views)
        ensures
            r.left_view == LeftGen2View::Hidden,
            r.right_view == RightGen2View::Hidden,
    {
        Gen2Views { left_view: LeftGen2View::Hidden, right_view: RightGen2View::Hidden }
    }
}

impl Gen2Views {
    /// Shows or hides each view whose combination was pressed this frame:
    /// `rng_toggle` for the RNG view, `network_toggle` for the network view.
    pub fn update_views(&mut self, rng_toggle: bool, network_toggle: bool)
        ensures
            final(self).right_view == toggled_right(old(self).right_view, rng_toggle),
            final(self).left_view == toggled_left(old(self).left_view, network_toggle),
    {
        self.right_view = match self.right_view {
            RightGen2View::RngView if rng_toggle => RightGen2View::Hidden,
            _ if rng_toggle => RightGen2View::RngView,
            view => view,
        };
        self.left_view = match self.left_view {
            LeftGen2View::NetworkView if network_toggle => LeftGen2View::Hidden,
            _ if network_toggle => LeftGen2View::NetworkView,
            view => view,
        };
    }

    /// One frame of the views: tracks the game's visual frame, then shows or
    /// hides the views; returns the views to draw.
    pub fn run_views<G: Gen2Reader>(
        &mut self,
        game: &G,
        rng: &mut Gen2Rng,
        rng_toggle: bool,
        network_toggle: bool,
    ) -> (r: (LeftGen2View, RightGen2View))
        requires
            gen2_layout_fits::<G>(),
            frame_advance_fits(
                old(rng)@,
                gb_byte(game.memory(), G::RAM_OFFSET, G::HRAM_OFFSET, G::VBLANK_OFFSET),
            ),
        ensures
            final(rng)@ == gen2_updated(
                old(rng)@,
                gb_byte(game.memory(), G::RAM_OFFSET, G::HRAM_OFFSET, G::VBLANK_OFFSET),
                gb_le_u16(game.memory(), G::RAM_OFFSET, G::HRAM_OFFSET, G::RNG_OFFSET),
            ),
            final(self).right_view == toggled_right(old(self).right_view, rng_toggle),
            final(self).left_view == toggled_left(old(self).left_view, network_toggle),
            r == (final(self).left_view, final(self).right_view),
    {
        rng.update(game);
        self.update_views(rng_toggle, network_toggle);
        (self.left_view, self.right_view)
    }
}

/// Pressing a view's combination in two frames shows or hides it and then
/// brings it back as it was; not pressing it leaves it as it is.
pub proof fn lemma_toggle_twice(left: LeftGen2View, right: RightGen2View, toggle: bool)
    ensures
        toggled_left(toggled_left(left, toggle), toggle) == left,
        toggled_right(toggled_right(right, toggle), toggle) == right,
        toggled_left(left, false) == left,
        toggled_right(right, false) == right,
{
}

/// Pressing a view's combination always changes whether it shows: a hidden
/// view shows and a shown view hides.
pub proof fn lemma_toggle_changes(left: LeftGen2View, right: RightGen2View)
    ensures
        toggled_left(left, true) != left,
        toggled_right(right, true) != right,
        toggled_left(LeftGen2View::Hidden, true) == LeftGen2View::NetworkView,
        toggled_right(RightGen2View::Hidden, true) == RightGen2View::RngView,
{
}

} // verus!
