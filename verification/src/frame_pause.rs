//! Pausing the game frame by frame, and accepting the connection of a computer.
//!
//! Pressing R pauses the game at the next frame on the top screen. While it is
//! paused, L+A or L alone lets one frame through and pauses again, and A or R
//! resumes. Pressing L+R+Select while no computer is connected accepts a
//! connection.

use vstd::prelude::*;

verus! {

/// Whether the game is paused and whether a computer is connected.
#[derive(Clone, Copy, Debug, PartialEq, Eq, Structural)]
pub struct PauseContext {
    pub is_paused: bool,
    pub is_connected: bool,
}

/// What the start of a frame does: the context after it, and whether a
/// connection is to be accepted (which connects the computer).
pub open spec fn frame_started(
    context: PauseContext,
    r_just_pressed: bool,
    connect_just_pressed: bool,
) -> (PauseContext, bool) {
    let accept = !context.is_connected && connect_just_pressed;
    (
        PauseContext {
            is_paused: context.is_paused || r_just_pressed,
            is_connected: context.is_connected || accept,
        },
        accept,
    )
}

/// The start of a frame: pauses when R was just pressed, and asks for a
/// connection to be accepted when no computer is connected and L+R+Select
/// was just pressed; the computer then counts as connected.
pub fn start_frame_pause(context: &mut PauseContext, r_just_pressed: bool, connect_just_pressed: bool) -> (accept: bool)
    ensures
        (*final(context), accept) == frame_started(*old(context), r_just_pressed, connect_just_pressed),
{
    if r_just_pressed {
        context.is_paused = true;
    }
    if !context.is_connected && connect_just_pressed {
        context.is_connected = true;
        true
    } else {
        false
    }
}

/// One look at the buttons while the game is paused.
#[derive(Clone, Copy, Debug, PartialEq, Eq, Structural)]
pub enum PauseStep {
    /// Let this frame through and stay paused.
    Advance,
    /// Let this frame through and resume.
    Resume,
    /// Wait and look again.
    Wait,
}

/// The step for the buttons held and just pressed: L+A or L advances one
/// frame, A or R resumes, and anything else waits.
pub open spec fn pause_step(l_held: bool, a_just_down: bool, l_just_down: bool, r_just_down: bool) -> PauseStep {
    if l_held && a_just_down {
        PauseStep::Advance
    } else if l_just_down {
        PauseStep::Advance
    } else if a_just_down || r_just_down {
        PauseStep::Resume
    } else {
        PauseStep::Wait
    }
}

/// One look at the buttons while paused; a `Resume` unpauses.
pub fn frame_pause_step(
    context: &mut PauseContext,
    l_held: bool,
    a_just_down: bool,
    l_just_down: bool,
    r_just_down: bool,
) -> (step: PauseStep)
    ensures
        step == pause_step(l_held, a_just_down, l_just_down, r_just_down),
        final(context).is_connected == old(context).is_connected,
        final(context).is_paused == (old(context).is_paused && step != PauseStep::Resume),
{
    if l_held && a_just_down {
        return PauseStep::Advance;
    }
    if l_just_down {
        return PauseStep::Advance;
    }
    if a_just_down || r_just_down {
        context.is_paused = false;
        return PauseStep::Resume;
    }
    PauseStep::Wait
}

/// The record of a connected computer: its address, a byte to a word, and its port.
pub fn connection_record(address: [u8; 4], port: u16) -> (r: [u16; 5])
    ensures
        forall|i: int| 0 <= i < 4 ==> r[i] == address[i],
        r[4] == port,
{
    [address[0] as u16, address[1] as u16, address[2] as u16, address[3] as u16, port]
}

/// Once a computer is connected it stays connected, and once the game is
/// paused only a `Resume` unpauses it.
pub proof fn lemma_pause_context_monotone(
    context: PauseContext,
    r_just_pressed: bool,
    connect_just_pressed: bool,
)
    ensures
        context.is_connected ==> frame_started(context, r_just_pressed, connect_just_pressed).0.is_connected
            && !frame_started(context, r_just_pressed, connect_just_pressed).1,
        context.is_paused ==> frame_started(context, r_just_pressed, connect_just_pressed).0.is_paused,
{
}

/// While paused: L held with A just pressed, or L just pressed, lets one frame
/// through and stays paused; otherwise A or R just pressed resumes; with none
/// of these the game waits. In particular A alone resumes, as R alone does.
pub proof fn lemma_pause_buttons(l_held: bool, a_just_down: bool, l_just_down: bool, r_just_down: bool)
    ensures
        (pause_step(l_held, a_just_down, l_just_down, r_just_down) == PauseStep::Advance) <==> ((l_held
            && a_just_down) || l_just_down),
        (pause_step(l_held, a_just_down, l_just_down, r_just_down) == PauseStep::Resume) <==> (!(l_held
            && a_just_down) && !l_just_down && (a_just_down || r_just_down)),
        (pause_step(l_held, a_just_down, l_just_down, r_just_down) == PauseStep::Wait) <==> (!l_just_down
            && !a_just_down && !r_just_down),
{
}

/// R just pressed pauses the game; L+R+Select just pressed with no computer
/// connected asks for a connection to be accepted and counts the computer as
/// connected; without these the context stays as it is.
pub proof fn lemma_frame_start(context: PauseContext, r_just_pressed: bool, connect_just_pressed: bool)
    ensures
        r_just_pressed ==> frame_started(context, r_just_pressed, connect_just_pressed).0.is_paused,
        (!context.is_connected && connect_just_pressed) ==> frame_started(context, r_just_pressed, connect_just_pressed).1
            && frame_started(context, r_just_pressed, connect_just_pressed).0.is_connected,
        (!r_just_pressed && !connect_just_pressed) ==> frame_started(context, r_just_pressed, connect_just_pressed)
            == (context, false),
        !r_just_pressed ==> frame_started(context, r_just_pressed, connect_just_pressed).0.is_paused == context.is_paused,
{
}

} // verus!
