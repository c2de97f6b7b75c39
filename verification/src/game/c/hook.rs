//! The hook into Pokémon Crystal: what runs each frame that the game presents.
//!
//! Each frame the tracker follows the visual frame and the views follow their
//! buttons; at visual frame 1, just after the counter moved, the command list
//! is cleared and a new one received; then the command list takes one step.

use vstd::prelude::*;
use super::reader::{PokemonCReader, lemma_crystal_layout};
use crate::command_handler::{
    CommandAction, CommandHandler, CommandHandlerView, COMMAND_BUFFER_LEN, commands_well_typed,
    received_handler, cleared_handler, command_count, parse_fits, parse_step, parse_action,
};
use crate::reader::{Gen2Reader, gb_byte, gb_le_u16};
use crate::rng::gen2::{Gen2Rng, Gen2RngView, frame_advance_fits, gen2_updated};
use crate::views::gen2::{Gen2Views, LeftGen2View, RightGen2View, toggled_left, toggled_right};

verus! {

/// The abstract state of the hook.
pub struct PokemonCView {
    pub title: u64,
    pub views: Gen2Views,
    pub rng: Gen2RngView,
    pub memory: Seq<u8>,
    pub command_handler: CommandHandlerView,
}

/// The vertical blank counter in the game's memory.
pub open spec fn crystal_vblank(memory: Seq<u8>) -> u8 {
    gb_byte(
        memory,
        <PokemonCReader as Gen2Reader>::RAM_OFFSET,
        <PokemonCReader as Gen2Reader>::HRAM_OFFSET,
        <PokemonCReader as Gen2Reader>::VBLANK_OFFSET,
    )
}

/// The random number generator's state in the game's memory.
pub open spec fn crystal_rng(memory: Seq<u8>) -> u16 {
    gb_le_u16(
        memory,
        <PokemonCReader as Gen2Reader>::RAM_OFFSET,
        <PokemonCReader as Gen2Reader>::HRAM_OFFSET,
        <PokemonCReader as Gen2Reader>::RNG_OFFSET,
    )
}

/// The hook into a running Pokémon Crystal.
pub struct PokemonC {
    title: u64,
    views: Gen2Views,
    rng: Gen2Rng,
    reader: PokemonCReader,
    command_handler: CommandHandler,
}

impl View for PokemonC {
    type V = PokemonCView;

    closed spec fn view(&self) -> PokemonCView {
        PokemonCView {
            title: self.title,
            views: self.views,
            rng: self.rng@,
            memory: self.reader.memory(),
            command_handler: self.command_handler@,
        }
    }
}

impl PokemonC {
    /// The command list's commands all have types.
    pub closed spec fn wf(&self) -> bool {
        self.command_handler.wf()
    }

    /// A hook into the title `title` whose emulator heap is `heap`: views
    /// hidden, visual frame zero, no commands.
    pub fn new_from_supported_title(title: u64, heap: &'static [u8]) -> (r: Box<PokemonC>)
        ensures
            r.wf(),
            r@ == (PokemonCView {
                title,
                views: Gen2Views { left_view: LeftGen2View::Hidden, right_view: RightGen2View::Hidden },
                rng: Gen2RngView { last_vblank: 0, vblank_change: 0, visual_frame: 0 },
                memory: heap@,
                command_handler: cleared_handler(),
            }),
    {
        Box::new(
            PokemonC {
                title,
                views: Gen2Views::default(),
                rng: Gen2Rng::default(),
                reader: PokemonCReader::new(heap),
                command_handler: CommandHandler::default(),
            },
        )
    }

    /// The title hooked.
    pub fn get_title(&self) -> (r: u64)
        ensures
            r == self@.title,
    {
        self.title
    }

    /// The reader of the game's memory.
    pub fn reader(&self) -> (r: &PokemonCReader)
        ensures
            r.memory() == self@.memory,
    {
        &self.reader
    }

    /// The tracker of the visual frame.
    pub fn rng(&self) -> (r: &Gen2Rng)
        ensures
            r@ == self@.rng,
    {
        &self.rng
    }

    /// The frame's views: tracks the visual frame, then shows or hides the
    /// views whose combinations were pressed; returns the views to draw.
    pub fn run_views(&mut self, rng_toggle: bool, network_toggle: bool) -> (r: (LeftGen2View, RightGen2View))
        requires
            old(self).wf(),
            frame_advance_fits(old(self)@.rng, crystal_vblank(old(self)@.memory)),
        ensures
            final(self).wf(),
            final(self)@ == (PokemonCView {
                views: Gen2Views {
                    left_view: toggled_left(old(self)@.views.left_view, network_toggle),
                    right_view: toggled_right(old(self)@.views.right_view, rng_toggle),
                },
                rng: gen2_updated(
                    old(self)@.rng,
                    crystal_vblank(old(self)@.memory),
                    crystal_rng(old(self)@.memory),
                ),
                ..old(self)@
            }),
            r == (final(self)@.views.left_view, final(self)@.views.right_view),
    {
        proof {
            lemma_crystal_layout();
        }
        self.views.run_views(&self.reader, &mut self.rng, rng_toggle, network_toggle)
    }

    /// Whether a new command list is to be received this frame: at visual
    /// frame 1, just after the vertical blank counter moved.
    pub fn should_receive_commands(&self) -> (r: bool)
        ensures
            r == (self@.rng.visual_frame == 1 && self@.rng.vblank_change != 0),
    {
        self.rng.get_visual_frame() == 1 && self.rng.get_vblank_change() != 0
    }

    /// Clears the command list and takes the one received, if any; returns
    /// how many commands it took, to be sent back.
    pub fn clear_and_recieve_commands(&mut self, received: Option<&[u8]>) -> (count: Option<u32>)
        requires
            received matches Some(b) ==> b@.len() >= COMMAND_BUFFER_LEN && commands_well_typed(b@),
        ensures
            final(self).wf(),
            match received {
                Some(b) => final(self)@ == (PokemonCView { command_handler: received_handler(b@), ..old(self)@ })
                    && count == Some(command_count(b@) as u32),
                None => final(self)@ == (PokemonCView { command_handler: cleared_handler(), ..old(self)@ })
                    && count is None,
            },
    {
        self.command_handler.clear_and_recieve_commands(received)
    }

    /// Sets the window of wall-clock time of the current imprecise input.
    pub fn set_imprecise_window(&mut self, start: u64, end: u64)
        requires
            old(self).wf(),
        ensures
            final(self).wf(),
            final(self)@ == (PokemonCView {
                command_handler: CommandHandlerView {
                    imprecise_start: start,
                    imprecise_end: end,
                    ..old(self)@.command_handler
                },
                ..old(self)@
            }),
    {
        self.command_handler.set_imprecise_window(start, end)
    }

    /// Whether the command list's step at `current_time` stays in range.
    pub fn parse_command_fits(&self, current_time: u64) -> (r: bool)
        requires
            self.wf(),
        ensures
            r == parse_fits(self@.command_handler, self@.memory, self@.rng.visual_frame, current_time),
    {
        self.command_handler.parse_command_fits(&self.reader, self.rng.get_visual_frame(), current_time)
    }

    /// One step of the command list at the tracked visual frame and the
    /// wall-clock time `current_time`; returns what is to be done.
    pub fn parse_command(&mut self, current_time: u64) -> (action: CommandAction)
        requires
            old(self).wf(),
            parse_fits(old(self)@.command_handler, old(self)@.memory, old(self)@.rng.visual_frame, current_time),
        ensures
            final(self).wf(),
            final(self)@ == (PokemonCView {
                command_handler: parse_step(old(self)@.command_handler, old(self)@.rng.visual_frame, current_time),
                ..old(self)@
            }),
            parse_action(action, old(self)@.command_handler, old(self)@.memory, old(self)@.rng.visual_frame, current_time),
    {
        let visual_frame = self.rng.get_visual_frame();
        self.command_handler.parse_command(&self.reader, visual_frame, current_time)
    }
}

} // verus!
