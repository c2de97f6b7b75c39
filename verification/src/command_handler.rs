//! The command stream that a connected computer sends to drive a generation 2
//! game: timed inputs to redirect into the game, reads of the game's memory,
//! and waits for a visual frame.
//!
//! Commands arrive as up to 64 records of four little-endian 32-bit words:
//! the command's type, then its arguments. A record of type `End` closes the
//! list. The handler then works through the list, one step per frame.

use vstd::prelude::*;
use crate::bytes::{le_u32, read_le_u32};
use crate::reader::Gen2Reader;

verus! {

/// The most commands that one list holds.
pub const MAX_COMMANDS: usize = 64;

/// The bytes that a command list arrives in.
pub const COMMAND_BUFFER_LEN: usize = 1024;

/// The bytes sent back for a `Read` command.
pub const READ_BUFFER_LEN: usize = 128;

/// The bit of an `Input` command's input that marks a touch screen input.
pub const TOUCH_INPUT_FLAG: u32 = 0x10000000;

/// The bit of an `ImpreciseInput` command's input that marks a touch screen input.
pub const IMPRECISE_TOUCH_INPUT_FLAG: u32 = 0x1000000;

/// The kinds of command.
#[derive(Clone, Copy, Debug, PartialEq, Eq, Structural)]
pub enum Command {
    /// Closes a command list. Number 0.
    End,
    /// Holds an input for a range of visual frames. Number 1.
    Input,
    /// Holds an input for a time measured in frames of wall-clock time. Number 2.
    ImpreciseInput,
    /// Sends back bytes of the game's memory. Number 3.
    Read,
    /// Waits until a visual frame. Number 255.
    WaitUntil,
}

/// The command of number `v`, if there is one.
pub open spec fn command_of(v: u32) -> Result<Command, ()> {
    if v == 0 {
        Ok(Command::End)
    } else if v == 1 {
        Ok(Command::Input)
    } else if v == 2 {
        Ok(Command::ImpreciseInput)
    } else if v == 3 {
        Ok(Command::Read)
    } else if v == 255 {
        Ok(Command::WaitUntil)
    } else {
        Err(())
    }
}

impl Command {
    /// The command's number.
    pub open spec fn spec_value(self) -> u32 {
        match self {
            Command::End => 0,
            Command::Input => 1,
            Command::ImpreciseInput => 2,
            Command::Read => 3,
            Command::WaitUntil => 255,
        }
    }

    /// The command's number.
    pub fn value(&self) -> (r: u32)
        ensures
            r == self.spec_value(),
    {
        match self {
            Command::End => 0,
            Command::Input => 1,
            Command::ImpreciseInput => 2,
            Command::Read => 3,
            Command::WaitUntil => 255,
        }
    }
}

impl TryFrom<u32> for Command {
    type Error = ();

    /// The command of number `v`, or an error when no command has that number.
    fn try_from(v: u32) -> (r: Result<Command, ()>) {
        if v == 0 {
            Ok(Command::End)
        } else if v == 1 {
            Ok(Command::Input)
        } else if v == 2 {
            Ok(Command::ImpreciseInput)
        } else if v == 3 {
            Ok(Command::Read)
        } else if v == 255 {
            Ok(Command::WaitUntil)
        } else {
            Err(())
        }
    }
}

impl vstd::std_specs::convert::TryFromSpecImpl<u32> for Command {
    open spec fn obeys_try_from_spec() -> bool {
        true
    }

    open spec fn try_from_spec(v: u32) -> Result<Self, Self::Error> {
        command_of(v)
    }
}


/// The command at place `i` of a list of commands that arrived in `b`.
pub open spec fn received_command(b: Seq<u8>, i: int) -> Seq<u32> {
    Seq::new(4, |j: int| le_u32(b, 16 * i + 4 * j))
}

/// The place of the first `End` command from place `i` on in the list that
/// arrived in `b`, or `MAX_COMMANDS` when there is none.
pub open spec fn end_of_commands(b: Seq<u8>, i: nat) -> nat
    decreases 64 - i,
{
    if i >= 64 {
        64
    } else if le_u32(b, 16 * i as int) == 0 {
        i
    } else {
        end_of_commands(b, i + 1)
    }
}

/// The first `End` from place `i` on is at `i` or after, and not after `MAX_COMMANDS`.
proof fn lemma_end_of_commands_bounds(b: Seq<u8>, i: nat)
    requires
        i <= 64,
    ensures
        i <= end_of_commands(b, i) <= 64,
    decreases 64 - i,
{
    if i < 64 && le_u32(b, 16 * i as int) != 0 {
        lemma_end_of_commands_bounds(b, i + 1);
    }
}

/// No command before the first `End` from place `j` on is an `End`.
proof fn lemma_no_end_before_end(b: Seq<u8>, j: nat, i: int)
    requires
        j <= i < end_of_commands(b, j),
    ensures
        le_u32(b, 16 * i) != 0,
    decreases 64 - j,
{
    if j < 64 && le_u32(b, 16 * j as int) != 0 && i > j {
        lemma_no_end_before_end(b, j + 1, i);
    }
}

/// How many commands the list that arrived in `b` holds before its `End`.
pub open spec fn command_count(b: Seq<u8>) -> nat {
    end_of_commands(b, 0)
}

/// Every command of the list that arrived in `b`, up to its `End`, has a type.
pub open spec fn commands_well_typed(b: Seq<u8>) -> bool {
    forall|i: int| 0 <= i < command_count(b) ==> command_of(#[trigger] le_u32(b, 16 * i)) is Ok
}

/// Whether every command of the list that arrived in `received`, up to its
/// `End`, has a type (a list with a command of no type cannot be taken).
pub fn received_commands_well_typed(received: &[u8]) -> (r: bool)
    requires
        received@.len() >= COMMAND_BUFFER_LEN,
    ensures
        r == commands_well_typed(received@),
{
    let mut i: usize = 0;
    while i < MAX_COMMANDS
        invariant
            received@.len() >= COMMAND_BUFFER_LEN,
            i <= MAX_COMMANDS,
            end_of_commands(received@, 0) == end_of_commands(received@, i as nat),
            forall|k: int| 0 <= k < i ==> command_of(#[trigger] le_u32(received@, 16 * k)) is Ok,
        decreases MAX_COMMANDS - i,
    {
        let command_type = read_le_u32(received, i * 16);
        if command_type == 0 {
            assert(end_of_commands(received@, i as nat) == i);
            return true;
        }
        match Command::try_from(command_type) {
            Ok(_) => {},
            Err(_) => {
                proof {
                    lemma_end_of_commands_bounds(received@, (i + 1) as nat);
                    assert(!(command_of(le_u32(received@, 16 * i)) is Ok));
                }
                return false;
            },
        }
        i = i + 1;
    }
    assert(end_of_commands(received@, 64) == 64);
    true
}

/// The abstract state of a command handler.
pub struct CommandHandlerView {
    pub imprecise_start: u64,
    pub imprecise_end: u64,
    pub inprecise_input_started: bool,
    pub input_started: bool,
    pub commands: Seq<Seq<u32>>,
    pub command_index: nat,
    pub last_command_ended: u32,
}

/// A handler with no commands, waiting for a list.
pub open spec fn cleared_handler() -> CommandHandlerView {
    CommandHandlerView {
        imprecise_start: 0,
        imprecise_end: 0,
        inprecise_input_started: false,
        input_started: false,
        commands: Seq::empty(),
        command_index: 0,
        last_command_ended: 0,
    }
}

/// The handler after the list of commands that arrived in `b`.
pub open spec fn received_handler(b: Seq<u8>) -> CommandHandlerView {
    CommandHandlerView {
        commands: Seq::new(command_count(b), |i: int| received_command(b, i)),
        ..cleared_handler()
    }
}

/// A handler holds at most `MAX_COMMANDS` commands, each of four words and
/// of a type other than `End`, and is at one of them or just past the last.
pub open spec fn handler_wf(v: CommandHandlerView) -> bool {
    &&& v.commands.len() <= 64
    &&& v.command_index <= v.commands.len()
    &&& forall|i: int|
        0 <= i < v.commands.len() ==> (#[trigger] v.commands[i]).len() == 4 && command_of(
            v.commands[i][0],
        ) is Ok && v.commands[i][0] != 0
}

/// A command handler.
#[derive(Clone, Debug, PartialEq, Eq)]
pub struct CommandHandler {
    imprecise_input_storage: [u64; 2],
    inprecise_input_started: bool,
    input_started: bool,
    commands: Vec<[u32; 4]>,
    command_index: usize,
    last_command_ended: u32,
}

impl View for CommandHandler {
    type V = CommandHandlerView;

    closed spec fn view(&self) -> CommandHandlerView {
        CommandHandlerView {
            imprecise_start: self.imprecise_input_storage[0],
            imprecise_end: self.imprecise_input_storage[1],
            inprecise_input_started: self.inprecise_input_started,
            input_started: self.input_started,
            commands: self.commands@.map_values(|c: [u32; 4]| c@),
            command_index: self.command_index as nat,
            last_command_ended: self.last_command_ended,
        }
    }
}

impl CommandHandler {
    /// Every command that the handler holds has a type.
    pub open spec fn wf(&self) -> bool {
        handler_wf(self@)
    }

    /// Drops the commands held and the progress through them; then, when a
    /// list of commands arrived (`received`), takes its commands up to its
    /// `End`, and returns how many it took, to be sent back.
    pub fn clear_and_recieve_commands(&mut self, received: Option<&[u8]>) -> (count: Option<u32>)
        requires
            received matches Some(b) ==> b@.len() >= COMMAND_BUFFER_LEN && commands_well_typed(b@),
        ensures
            final(self).wf(),
            match received {
                Some(b) => final(self)@ == received_handler(b@) && count == Some(
                    command_count(b@) as u32,
                ),
                None => final(self)@ == cleared_handler() && count is None,
            },
    {
        self.commands = Vec::new();
        self.command_index = 0;
        self.last_command_ended = 0;
        self.imprecise_input_storage = [0u64; 2];
        self.inprecise_input_started = false;
        self.input_started = false;
        match received {
            None => {
                assert(self@.commands =~= Seq::empty());
                assert(self@ == cleared_handler());
                None
            },
            Some(input) => {
                let mut command_length: usize = MAX_COMMANDS;
                let mut i: usize = 0;
                let mut done = false;
                while !done && i < MAX_COMMANDS
                    invariant
                        input@.len() >= COMMAND_BUFFER_LEN,
                        commands_well_typed(input@),
                        i <= MAX_COMMANDS,
                        self.commands.len() == i,
                        end_of_commands(input@, 0) == (if done {
                            i as nat
                        } else {
                            end_of_commands(input@, i as nat)
                        }),
                        done ==> command_length == i,
                        command_length <= MAX_COMMANDS,
                        !done ==> command_length == MAX_COMMANDS,
                        forall|k: int|
                            0 <= k < i ==> (#[trigger] self.commands@[k])@ == received_command(
                                input@,
                                k,
                            ) && command_of(self.commands@[k][0]) is Ok && self.commands@[k][0] != 0,
                        self.command_index == 0,
                        self.last_command_ended == 0,
                        self.imprecise_input_storage@ == seq![0u64, 0u64],
                        !self.inprecise_input_started,
                        !self.input_started,
                    decreases MAX_COMMANDS - i + (if done { 0int } else { 1int }),
                {
                    let command = [
                        read_le_u32(input, i * 16),
                        read_le_u32(input, i * 16 + 4),
                        read_le_u32(input, i * 16 + 8),
                        read_le_u32(input, i * 16 + 12),
                    ];
                    proof {
                        assert(command@ =~= received_command(input@, i as int));
                    }
                    match Command::try_from(command[0]) {
                        Ok(Command::End) => {
                            command_length = i;
                            done = true;
                        },
                        Ok(_) => {
                            self.commands.push(command);
                            i = i + 1;
                        },
                        Err(_) => {
                            proof {
                                lemma_end_of_commands_bounds(input@, (i + 1) as nat);
                                assert(command[0] == le_u32(input@, 16 * i));
                                assert(command_of(le_u32(input@, 16 * i)) is Ok);
                            }
                            done = true;
                            command_length = i;
                        },
                    }
                }
                proof {
                    if !done {
                        assert(end_of_commands(input@, i as nat) == 64);
                    }
                    assert(self@.commands =~= Seq::new(
                        command_count(input@),
                        |k: int| received_command(input@, k),
                    ));
                    assert(self@ == received_handler(input@));
                    assert(command_length == command_count(input@));
                }
                Some(command_length as u32)
            },
        }
    }
}


/// What the game's surroundings are to do after a step of the command handler.
#[derive(Clone, Copy, Debug)]
pub enum CommandAction {
    /// Nothing.
    Nothing,
    /// Write this value into the touch screen's input redirection.
    WriteTouch(u32),
    /// Write this value into the buttons' input redirection.
    WriteHid(u32),
    /// Release the touch screen (0x2000000) and all buttons (0xFFF).
    ClearInputs,
    /// Set the window of wall-clock time in which the current imprecise input
    /// is held, with `set_imprecise_window`: it starts `frames_until_start`
    /// frames of time from now and lasts `frames_held` frames of time.
    ScheduleImpreciseInput { frames_until_start: u32, frames_held: u32 },
    /// Send these bytes to the connected computer.
    Send([u8; 128]),
}

/// The command that the handler is at.
pub open spec fn current_command(v: CommandHandlerView) -> Seq<u32> {
    v.commands[v.command_index as int]
}

/// The handler after one step at visual frame `visual_frame` and wall-clock
/// time `now` (in milliseconds).
pub open spec fn parse_step(v: CommandHandlerView, visual_frame: u32, now: u64) -> CommandHandlerView {
    if v.command_index >= v.commands.len() {
        v
    } else {
        let c = current_command(v);
        let next = CommandHandlerView { command_index: v.command_index + 1, ..v };
        match command_of(c[0]) {
            Ok(Command::Input) => {
                let (start_frame, length) = (c[2], c[3]);
                if !v.input_started && visual_frame >= start_frame && visual_frame <= start_frame + length {
                    CommandHandlerView { input_started: true, ..v }
                } else if visual_frame > start_frame + length {
                    CommandHandlerView {
                        input_started: false,
                        last_command_ended: (start_frame + length) as u32,
                        ..next
                    }
                } else {
                    v
                }
            },
            Ok(Command::ImpreciseInput) => {
                if v.imprecise_start == 0 {
                    v
                } else if now >= v.imprecise_end {
                    CommandHandlerView {
                        imprecise_start: 0,
                        imprecise_end: 0,
                        inprecise_input_started: false,
                        last_command_ended: (c[2] + c[3]) as u32,
                        ..next
                    }
                } else if !v.inprecise_input_started && now >= v.imprecise_start {
                    CommandHandlerView { inprecise_input_started: true, ..v }
                } else {
                    v
                }
            },
            Ok(Command::Read) => next,
            Ok(Command::WaitUntil) => {
                if visual_frame >= c[1] {
                    CommandHandlerView { last_command_ended: visual_frame, ..next }
                } else {
                    v
                }
            },
            _ => v,
        }
    }
}

/// The bytes sent back for a `Read` of `length` bytes of `memory` from `address` on.
pub open spec fn read_bytes(memory: Seq<u8>, address: u32, length: u32) -> Seq<u8> {
    Seq::new(128, |i: int| if i < length { memory[address + i] } else { 0u8 })
}

/// The redirection write of an input: a touch screen input where `flag` is set in it.
pub open spec fn input_write(input: u32, flag: u32) -> CommandAction {
    if input & flag != 0 {
        CommandAction::WriteTouch(input)
    } else {
        CommandAction::WriteHid(input)
    }
}

/// `a` is what one step at visual frame `visual_frame` and wall-clock time
/// `now` calls for, with the game's heap `memory`.
pub open spec fn parse_action(
    a: CommandAction,
    v: CommandHandlerView,
    memory: Seq<u8>,
    visual_frame: u32,
    now: u64,
) -> bool {
    if v.command_index >= v.commands.len() {
        a is Nothing
    } else {
        let c = current_command(v);
        match command_of(c[0]) {
            Ok(Command::Input) => {
                let (input, start_frame, length) = (c[1], c[2], c[3]);
                if !v.input_started && visual_frame >= start_frame && visual_frame <= start_frame + length {
                    a == input_write(input, 0x10000000)
                } else if visual_frame > start_frame + length {
                    a is ClearInputs
                } else {
                    a is Nothing
                }
            },
            Ok(Command::ImpreciseInput) => {
                if v.imprecise_start == 0 {
                    a == (CommandAction::ScheduleImpreciseInput {
                        frames_until_start: (c[2] - v.last_command_ended) as u32,
                        frames_held: c[3],
                    })
                } else if now >= v.imprecise_end {
                    a is ClearInputs
                } else if !v.inprecise_input_started && now >= v.imprecise_start {
                    a == input_write(c[1], 0x1000000)
                } else {
                    a is Nothing
                }
            },
            Ok(Command::Read) => match a {
                CommandAction::Send(bytes) => bytes@ == read_bytes(memory, c[1], c[2]),
                _ => false,
            },
            _ => a is Nothing,
        }
    }
}

/// One step at visual frame `visual_frame` and wall-clock time `now` stays
/// in range: frame sums fit in 32 bits, an imprecise input does not start
/// before the command before it ended, and a `Read` reads at most 128 bytes,
/// all of them in the heap `memory`.
pub open spec fn parse_fits(v: CommandHandlerView, memory: Seq<u8>, visual_frame: u32, now: u64) -> bool {
    v.command_index < v.commands.len() ==> {
        let c = current_command(v);
        match command_of(c[0]) {
            Ok(Command::Input) => c[2] + c[3] <= u32::MAX,
            Ok(Command::ImpreciseInput) => {
                &&& v.imprecise_start == 0 ==> c[2] >= v.last_command_ended
                &&& v.imprecise_start != 0 && now >= v.imprecise_end ==> c[2] + c[3] <= u32::MAX
            },
            Ok(Command::Read) => c[2] <= 128 && (c[2] == 0 || c[1] + c[2] <= memory.len()),
            _ => true,
        }
    }
}

impl CommandHandler {
    /// Sets the window of wall-clock time (in milliseconds) in which the
    /// current imprecise input is held.
    pub fn set_imprecise_window(&mut self, start: u64, end: u64)
        requires
            old(self).wf(),
        ensures
            final(self).wf(),
            final(self)@ == (CommandHandlerView { imprecise_start: start, imprecise_end: end, ..old(self)@ }),
    {
        self.imprecise_input_storage = [start, end];
    }

    /// Whether one step at visual frame `visual_frame` and wall-clock time
    /// `now` stays in range (see `parse_fits`).
    pub fn parse_command_fits<G: Gen2Reader>(&self, game: &G, visual_frame: u32, current_time: u64) -> (r: bool)
        requires
            self.wf(),
        ensures
            r == parse_fits(self@, game.memory(), visual_frame, current_time),
    {
        if self.command_index >= self.commands.len() {
            return true;
        }
        let command = self.commands[self.command_index];
        proof {
            assert(command@ == current_command(self@));
        }
        match Command::try_from(command[0]) {
            Ok(Command::Input) => command[2] as u64 + command[3] as u64 <= u32::MAX as u64,
            Ok(Command::ImpreciseInput) => {
                (self.imprecise_input_storage[0] != 0 || command[2] >= self.last_command_ended)
                    && (self.imprecise_input_storage[0] == 0 || current_time < self.imprecise_input_storage[1]
                    || command[2] as u64 + command[3] as u64 <= u32::MAX as u64)
            },
            Ok(Command::Read) => {
                let length = game.get_slice().len();
                command[2] <= 128 && (command[2] == 0 || (command[1] as u64 + command[2] as u64)
                    <= length as u64)
            },
            _ => true,
        }
    }

    /// One step through the command list at visual frame `visual_frame`
    /// and wall-clock time `current_time` (in milliseconds):
    /// - `Input` (input, start frame, length): holds the input from the start
    ///   frame to the start frame plus the length, then releases it and moves on;
    /// - `ImpreciseInput` (input, start frame, length): first asks for its window
    ///   of wall-clock time to be set, then holds the input in that window,
    ///   then releases it and moves on;
    /// - `Read` (address, length): sends back that many bytes of the game's
    ///   heap from the address on, and moves on;
    /// - `WaitUntil` (frame): moves on once the visual frame has reached the frame.
    pub fn parse_command<G: Gen2Reader>(&mut self, game: &G, visual_frame: u32, current_time: u64) -> (action: CommandAction)
        requires
            old(self).wf(),
            parse_fits(old(self)@, game.memory(), visual_frame, current_time),
        ensures
            final(self).wf(),
            final(self)@ == parse_step(old(self)@, visual_frame, current_time),
            parse_action(action, old(self)@, game.memory(), visual_frame, current_time),
    {
        if self.command_index >= self.commands.len() {
            return CommandAction::Nothing;
        }
        let command = self.commands[self.command_index];
        proof {
            assert(command@ == current_command(self@));
        }
        let ghost start = self@;
        match Command::try_from(command[0]) {
            Ok(Command::Input) => {
                let input = command[1];
                let start_frame = command[2];
                let length = command[3];
                if !self.input_started && (visual_frame >= start_frame) && (visual_frame <= (start_frame
                    + length)) {
                    self.input_started = true;
                    if input & TOUCH_INPUT_FLAG != 0 {
                        CommandAction::WriteTouch(input)
                    } else {
                        CommandAction::WriteHid(input)
                    }
                } else if visual_frame > start_frame + length {
                    self.input_started = false;
                    self.last_command_ended = start_frame + length;
                    self.command_index = self.command_index + 1;
                    CommandAction::ClearInputs
                } else {
                    CommandAction::Nothing
                }
            },
            Ok(Command::ImpreciseInput) => {
                let input = command[1];
                let start_frame = command[2];
                let length = command[3];
                if self.imprecise_input_storage[0] == 0 {
                    CommandAction::ScheduleImpreciseInput {
                        frames_until_start: start_frame - self.last_command_ended,
                        frames_held: length,
                    }
                } else if current_time >= self.imprecise_input_storage[1] {
                    self.imprecise_input_storage = [0u64; 2];
                    self.inprecise_input_started = false;
                    self.last_command_ended = start_frame + length;
                    self.command_index = self.command_index + 1;
                    CommandAction::ClearInputs
                } else if !self.inprecise_input_started && current_time
                    >= self.imprecise_input_storage[0] {
                    self.inprecise_input_started = true;
                    if input & IMPRECISE_TOUCH_INPUT_FLAG != 0 {
                        CommandAction::WriteTouch(input)
                    } else {
                        CommandAction::WriteHid(input)
                    }
                } else {
                    CommandAction::Nothing
                }
            },
            Ok(Command::Read) => {
                let address = command[1];
                let length = command[2] as usize;
                let mut send_buffer = [0u8; 128];
                let heap_len = game.get_slice().len();
                let mut i: usize = 0;
                while i < length
                    invariant
                        length == command[2],
                        address == command[1],
                        length <= 128,
                        i <= length,
                        command[2] == 0 || command[1] + command[2] <= game.memory().len(),
                        heap_len == game.memory().len(),
                        forall|k: int|
                            0 <= k < 128 ==> #[trigger] send_buffer@[k] == (if k < i {
                                game.memory()[address + k]
                            } else {
                                0u8
                            }),
                    decreases length - i,
                {
                    let byte = match game.read((address as usize) + i) {
                        Ok(b) => b,
                        Err(_) => 0,
                    };
                    assert(byte == game.memory()[address + i]);
                    send_buffer.set(i, byte);
                    i = i + 1;
                }
                proof {
                    assert(send_buffer@ =~= read_bytes(game.memory(), command[1], command[2]));
                }
                self.command_index = self.command_index + 1;
                CommandAction::Send(send_buffer)
            },
            Ok(Command::WaitUntil) => {
                let frame = command[1];
                if visual_frame >= frame {
                    self.last_command_ended = visual_frame;
                    self.command_index = self.command_index + 1;
                }
                CommandAction::Nothing
            },
            _ => CommandAction::Nothing,
        }
    }
}

impl Default for CommandHandler {
    /// A handler with no commands.
    fn default() -> (r: CommandHandler)
        ensures
            r.wf(),
            r@ == cleared_handler(),
    {
        let r = CommandHandler {
            imprecise_input_storage: [0u64; 2],
            inprecise_input_started: false,
            input_started: false,
            commands: Vec::new(),
            command_index: 0,
            last_command_ended: 0,
        };
        assert(r@.commands =~= Seq::empty());
        r
    }
}

/// A command's number gives the command back; a number gives a command only
/// when it is that command's number.
pub proof fn lemma_command_number_roundtrip(c: Command, v: u32)
    ensures
        command_of(c.spec_value()) == Ok::<Command, ()>(c),
        command_of(v) matches Ok(d) ==> d.spec_value() == v,
{
}

/// A step through the command list keeps its commands, and stays at the
/// command it is at or moves on to the next one.
pub proof fn lemma_parse_step_progress(v: CommandHandlerView, visual_frame: u32, now: u64)
    requires
        handler_wf(v),
    ensures
        parse_step(v, visual_frame, now).commands == v.commands,
        parse_step(v, visual_frame, now).command_index == v.command_index
            || parse_step(v, visual_frame, now).command_index == v.command_index + 1,
        handler_wf(parse_step(v, visual_frame, now)),
{
}

/// Every handler that the public calls reach is well formed: a cleared
/// handler and the handler after a well-typed list are, and a step keeps it so.
pub proof fn lemma_reachable_handlers_wf(b: Seq<u8>, v: CommandHandlerView, visual_frame: u32, now: u64)
    requires
        commands_well_typed(b),
    ensures
        handler_wf(cleared_handler()),
        handler_wf(received_handler(b)),
        handler_wf(v) ==> handler_wf(parse_step(v, visual_frame, now)),
{
    lemma_end_of_commands_bounds(b, 0);
    assert forall|i: int| 0 <= i < received_handler(b).commands.len() implies
        (#[trigger] received_handler(b).commands[i]).len() == 4
        && command_of(received_handler(b).commands[i][0]) is Ok
        && received_handler(b).commands[i][0] != 0 by {
        lemma_no_end_before_end(b, 0, i);
        assert(received_handler(b).commands[i] == received_command(b, i));
        assert(received_command(b, i)[0] == le_u32(b, 16 * i));
    }
}

/// Once the list is worked through, a step does nothing.
pub proof fn lemma_parse_step_done(v: CommandHandlerView, memory: Seq<u8>, visual_frame: u32, now: u64, a: CommandAction)
    requires
        v.command_index >= v.commands.len(),
    ensures
        parse_step(v, visual_frame, now) == v,
        parse_action(a, v, memory, visual_frame, now) <==> a is Nothing,
{
}

/// An `Input` command (input, start frame, length) that has not started yet
/// presses its input at any visual frame from the start frame to the start
/// frame plus the length, not only at the start frame: on the touch screen
/// when the input has bit `0x10000000` set, else on the buttons; it then stays
/// at that command. Before the start frame it waits; after the window it
/// releases the touch screen and the buttons, records the window's end and
/// moves on to the next command.
pub proof fn lemma_input_window(
    v: CommandHandlerView,
    memory: Seq<u8>,
    visual_frame: u32,
    now: u64,
    a: CommandAction,
)
    requires
        handler_wf(v),
        v.command_index < v.commands.len(),
        v.commands[v.command_index as int][0] == 1,
        v.commands[v.command_index as int][2] + v.commands[v.command_index as int][3] <= u32::MAX,
        parse_action(a, v, memory, visual_frame, now),
    ensures
        ({
            let c = v.commands[v.command_index as int];
            let (input, start, end) = (c[1], c[2], c[2] + c[3]);
            let w = parse_step(v, visual_frame, now);
            &&& (!v.input_started && start <= visual_frame <= end) ==> {
                &&& w.input_started
                &&& w.command_index == v.command_index
                &&& (input & 0x10000000 != 0 ==> a == CommandAction::WriteTouch(input))
                &&& (input & 0x10000000 == 0 ==> a == CommandAction::WriteHid(input))
            }
            &&& visual_frame > end ==> {
                &&& a is ClearInputs
                &&& !w.input_started
                &&& w.last_command_ended == end
                &&& w.command_index == v.command_index + 1
            }
            &&& visual_frame < start ==> a is Nothing && w == v
            &&& (v.input_started && visual_frame <= end) ==> a is Nothing && w == v
        }),
{
}

/// A received list holds the records before its first `End`, each as its four
/// little-endian words, and at most 64 of them: every record it holds has a
/// type word other than 0, and the record after the last one held, if there
/// is one among the 64, is an `End`.
pub proof fn lemma_received_list(b: Seq<u8>)
    requires
        commands_well_typed(b),
    ensures
        received_handler(b).commands.len() <= 64,
        received_handler(b).command_index == 0,
        forall|i: int, j: int|
            0 <= i < received_handler(b).commands.len() && 0 <= j < 4 ==> #[trigger] received_handler(b).commands[i][j]
                == b[16 * i + 4 * j] + 0x100 * b[16 * i + 4 * j + 1] + 0x10000 * b[16 * i + 4 * j + 2] + 0x1000000
                * b[16 * i + 4 * j + 3],
        forall|i: int| 0 <= i < received_handler(b).commands.len() ==> #[trigger] received_handler(b).commands[i][0] != 0,
        received_handler(b).commands.len() < 64 ==> {
            let n = received_handler(b).commands.len() as int;
            b[16 * n] + 0x100 * b[16 * n + 1] + 0x10000 * b[16 * n + 2] + 0x1000000 * b[16 * n + 3] == 0
        },
{
    lemma_reachable_handlers_wf(b, received_handler(b), 0, 0);
    lemma_end_of_commands_found(b, 0);
}

/// The first `End` from place `j` on, when before 64, is an `End`.
proof fn lemma_end_of_commands_found(b: Seq<u8>, j: nat)
    requires
        j <= 64,
    ensures
        end_of_commands(b, j) < 64 ==> le_u32(b, 16 * end_of_commands(b, j) as int) == 0,
    decreases 64 - j,
{
    if j < 64 && le_u32(b, 16 * j as int) != 0 {
        lemma_end_of_commands_found(b, j + 1);
    }
}

/// A `WaitUntil` command (frame) moves on once the visual frame has reached
/// its frame, recording the visual frame as the end of the last command; before
/// that it waits. It never writes an input.
pub proof fn lemma_wait_until(v: CommandHandlerView, memory: Seq<u8>, visual_frame: u32, now: u64, a: CommandAction)
    requires
        handler_wf(v),
        v.command_index < v.commands.len(),
        v.commands[v.command_index as int][0] == 255,
        parse_action(a, v, memory, visual_frame, now),
    ensures
        a is Nothing,
        visual_frame >= v.commands[v.command_index as int][1] ==> {
            &&& parse_step(v, visual_frame, now).command_index == v.command_index + 1
            &&& parse_step(v, visual_frame, now).last_command_ended == visual_frame
        },
        visual_frame < v.commands[v.command_index as int][1] ==> parse_step(v, visual_frame, now) == v,
{
}

/// A `Read` command (address, length) sends back 128 bytes: the `length`
/// bytes of the heap from `address` on, then zeros; and moves on.
pub proof fn lemma_read(v: CommandHandlerView, memory: Seq<u8>, visual_frame: u32, now: u64, a: CommandAction)
    requires
        handler_wf(v),
        v.command_index < v.commands.len(),
        v.commands[v.command_index as int][0] == 3,
        parse_action(a, v, memory, visual_frame, now),
    ensures
        a matches CommandAction::Send(bytes) && forall|i: int|
            0 <= i < 128 ==> #[trigger] bytes[i] == (if i < v.commands[v.command_index as int][2] {
                memory[v.commands[v.command_index as int][1] + i]
            } else {
                0u8
            }),
        parse_step(v, visual_frame, now) == (CommandHandlerView { command_index: v.command_index + 1, ..v }),
{
    if let CommandAction::Send(bytes) = a {
        assert forall|i: int| 0 <= i < 128 implies #[trigger] bytes[i] == (if i < v.commands[v.command_index as int][2] {
            memory[v.commands[v.command_index as int][1] + i]
        } else {
            0u8
        }) by {
            assert(bytes[i] == bytes@[i]);
        }
    }
}

/// An `ImpreciseInput` command (input, start frame, length) first asks for its
/// window, starting `start - last end` frames after the last command ended
/// and lasting `length` frames; inside the window it presses its input once
/// (on the touch screen when the input has bit `0x1000000` set, else on the
/// buttons); at the window's end it releases everything, records its end frame
/// and moves on.
pub proof fn lemma_imprecise_input(v: CommandHandlerView, memory: Seq<u8>, visual_frame: u32, now: u64, a: CommandAction)
    requires
        handler_wf(v),
        v.command_index < v.commands.len(),
        v.commands[v.command_index as int][0] == 2,
        parse_fits(v, memory, visual_frame, now),
        parse_action(a, v, memory, visual_frame, now),
    ensures
        ({
            let c = v.commands[v.command_index as int];
            let w = parse_step(v, visual_frame, now);
            &&& v.imprecise_start == 0 ==> w == v && a == (CommandAction::ScheduleImpreciseInput {
                frames_until_start: (c[2] - v.last_command_ended) as u32,
                frames_held: c[3],
            })
            &&& (v.imprecise_start != 0 && now >= v.imprecise_end) ==> {
                &&& a is ClearInputs
                &&& w.imprecise_start == 0 && w.imprecise_end == 0
                &&& !w.inprecise_input_started
                &&& w.last_command_ended == c[2] + c[3]
                &&& w.command_index == v.command_index + 1
            }
            &&& (v.imprecise_start != 0 && now < v.imprecise_end && !v.inprecise_input_started && now
                >= v.imprecise_start) ==> {
                &&& w.inprecise_input_started
                &&& w.command_index == v.command_index
                &&& (c[1] & 0x1000000 != 0 ==> a == CommandAction::WriteTouch(c[1]))
                &&& (c[1] & 0x1000000 == 0 ==> a == CommandAction::WriteHid(c[1]))
            }
            &&& (v.imprecise_start != 0 && now < v.imprecise_start && now < v.imprecise_end) ==> a is Nothing && w == v
        }),
{
}

/// The command numbers: 0 `End`, 1 `Input`, 2 `ImpreciseInput`, 3 `Read`,
/// 255 `WaitUntil`; no other number is a command.
pub proof fn lemma_command_numbers(v: u32)
    ensures
        command_of(0) == Ok::<Command, ()>(Command::End),
        command_of(1) == Ok::<Command, ()>(Command::Input),
        command_of(2) == Ok::<Command, ()>(Command::ImpreciseInput),
        command_of(3) == Ok::<Command, ()>(Command::Read),
        command_of(255) == Ok::<Command, ()>(Command::WaitUntil),
        (v != 0 && v != 1 && v != 2 && v != 3 && v != 255) ==> command_of(v) is Err,
        Command::End.spec_value() == 0 && Command::Input.spec_value() == 1 && Command::ImpreciseInput.spec_value() == 2
            && Command::Read.spec_value() == 3 && Command::WaitUntil.spec_value() == 255,
{
}

} // verus!
