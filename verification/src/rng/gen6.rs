//! Tracking of the generation 6 random number generators.
//!
//! The game's Mersenne Twister and TinyMT states are read every frame; the
//! tracker follows each of them with a generator of its own, counts how many
//! steps the game's generator has taken since it was seeded, and decides which
//! button presses to redirect into the game at which Mersenne Twister advance.

use vstd::prelude::*;
use crate::rng::mt::{MT, MtState, mt_step, mt_advance, seeded};
use crate::rng::tinymt::{TinyMT, tinymt_next, tinymt_advance};
use crate::bytes::{le_u32, read_le_u32};

verus! {

/// How many steps a state is searched for before the search gives up.
pub const SEARCH_LIMIT: u32 = 9999;

/// The value a redirected input holds when no button is pressed.
pub const NO_BUTTONS: u32 = 0xFFF;

/// How many (advance, buttons) pairs a downloaded input list holds.
pub const INPUT_PAIRS: usize = 64;

/// The abstract state of a generation 6 tracker.
pub struct Gen6RngView {
    pub init_seed: u32,
    pub init_tinymt_state: Seq<u32>,
    pub mt_rng: MtState,
    pub tinymt_rng: Seq<u32>,
    pub mt_advances: u32,
    pub input_advances: Seq<u32>,
    pub input_buttons: Seq<u32>,
    pub tinymt_advances: u32,
    pub mt_state: u32,
}

/// Searching for `target` among `current` and the words that a Mersenne
/// Twister in state `rng` hands out next: the number of calls after which
/// `target` was seen first (`k` counts the calls already made), or `None`
/// when it is not seen before `SEARCH_LIMIT` calls.
pub open spec fn mt_search(current: u32, rng: MtState, target: u32, k: nat) -> Option<nat>
    decreases 9999 - k,
{
    if k >= 9999 {
        None
    } else if current == target {
        Some(k)
    } else {
        mt_search(mt_step(rng).1, mt_step(rng).0, target, k + 1)
    }
}

/// Searching for `target` among `state` and the states that follow it: the
/// number of steps after which `target` was reached first, or `None` when it
/// is not reached before `SEARCH_LIMIT` steps.
pub open spec fn tinymt_search(state: Seq<u32>, target: Seq<u32>, k: nat) -> Option<nat>
    decreases 9999 - k,
{
    if k >= 9999 {
        None
    } else if state == target {
        Some(k)
    } else {
        tinymt_search(tinymt_next(state), target, k + 1)
    }
}

/// The tracker after it has followed the game's Mersenne Twister to `mt_state`.
pub open spec fn mt_updated(v: Gen6RngView, mt_state: u32) -> Gen6RngView {
    match mt_search(v.mt_state, v.mt_rng, mt_state, 0) {
        Some(k) => Gen6RngView {
            mt_state,
            mt_advances: (v.mt_advances + k) as u32,
            mt_rng: mt_advance(v.mt_rng, k),
            ..v
        },
        None => Gen6RngView { mt_rng: mt_advance(v.mt_rng, 9999), ..v },
    }
}

/// Following the game's Mersenne Twister to `mt_state` keeps the advance count in range.
pub open spec fn mt_update_fits(v: Gen6RngView, mt_state: u32) -> bool {
    match mt_search(v.mt_state, v.mt_rng, mt_state, 0) {
        Some(k) => v.mt_advances + k <= u32::MAX,
        None => true,
    }
}

/// The tracker after it has followed the game's TinyMT to `tinymt_state`.
pub open spec fn tinymt_updated(v: Gen6RngView, tinymt_state: Seq<u32>) -> Gen6RngView {
    match tinymt_search(v.tinymt_rng, tinymt_state, 0) {
        Some(k) => Gen6RngView {
            tinymt_advances: (v.tinymt_advances + k) as u32,
            tinymt_rng: tinymt_advance(v.tinymt_rng, k),
            ..v
        },
        None => Gen6RngView { tinymt_rng: tinymt_advance(v.tinymt_rng, 9999), ..v },
    }
}

/// Following the game's TinyMT to `tinymt_state` keeps the advance count in range.
pub open spec fn tinymt_update_fits(v: Gen6RngView, tinymt_state: Seq<u32>) -> bool {
    match tinymt_search(v.tinymt_rng, tinymt_state, 0) {
        Some(k) => v.tinymt_advances + k <= u32::MAX,
        None => true,
    }
}

/// The advances of a downloaded input list: the first word of each of its
/// `INPUT_PAIRS` eight-byte pairs.
pub open spec fn downloaded_advances(buffer: Seq<u8>) -> Seq<u32> {
    Seq::new(64, |i: int| le_u32(buffer, 8 * i))
}

/// The buttons of a downloaded input list: the second word of each pair.
pub open spec fn downloaded_buttons(buffer: Seq<u8>) -> Seq<u32> {
    Seq::new(64, |i: int| le_u32(buffer, 8 * i + 4))
}

/// The tracker is started again when the game reports a seed that is not zero
/// and not the one it was started with.
pub open spec fn needs_reseed(v: Gen6RngView, init_seed: u32) -> bool {
    v.init_seed != init_seed && init_seed != 0
}

/// The tracker started again from `init_seed` and `tinymt_state`, with the
/// input list that was downloaded, if any was.
pub open spec fn reseeded(init_seed: u32, tinymt_state: Seq<u32>, downloaded: Option<Seq<u8>>) -> Gen6RngView {
    Gen6RngView {
        init_seed,
        init_tinymt_state: tinymt_state,
        mt_rng: seeded(init_seed),
        tinymt_rng: tinymt_state,
        mt_advances: 0,
        input_advances: match downloaded {
            Some(b) => downloaded_advances(b),
            None => Seq::empty(),
        },
        input_buttons: match downloaded {
            Some(b) => downloaded_buttons(b),
            None => Seq::empty(),
        },
        tinymt_advances: 0,
        mt_state: init_seed,
    }
}

/// The input to redirect into the game: the buttons paired with the first
/// occurrence of the current advance in the input list; else a release of
/// all buttons, unless no button is pressed already (`None`: nothing to write).
pub open spec fn redirected_input(v: Gen6RngView, current_input: u32) -> Option<u32> {
    match v.input_advances.index_of_first(v.mt_advances) {
        Some(i) => Some(v.input_buttons[i]),
        None => if current_input != 0xFFF {
            Some(0xFFFu32)
        } else {
            None
        },
    }
}


/// The contents of a downloaded input list, if one was downloaded.
pub open spec fn download_view(downloaded: Option<&[u8; 512]>) -> Option<Seq<u8>> {
    match downloaded {
        Some(b) => Some(b@),
        None => None,
    }
}

/// The tracker's state after `v` became started again, if the game's seed
/// calls for it.
pub open spec fn seeded_for(v: Gen6RngView, init_seed: u32, tinymt_state: Seq<u32>, downloaded: Option<Seq<u8>>) -> Gen6RngView {
    if needs_reseed(v, init_seed) {
        reseeded(init_seed, tinymt_state, downloaded)
    } else {
        v
    }
}

/// The tracker after one frame in which the game reported `init_seed`,
/// `mt_state` and `tinymt_state`.
pub open spec fn gen6_updated(
    v: Gen6RngView,
    init_seed: u32,
    mt_state: u32,
    tinymt_state: Seq<u32>,
    downloaded: Option<Seq<u8>>,
) -> Gen6RngView {
    tinymt_updated(mt_updated(seeded_for(v, init_seed, tinymt_state, downloaded), mt_state), tinymt_state)
}

/// A frame's update keeps both advance counts in range (whatever input list
/// was downloaded: the counts do not depend on it).
pub open spec fn gen6_update_fits(
    v: Gen6RngView,
    init_seed: u32,
    mt_state: u32,
    tinymt_state: Seq<u32>,
) -> bool {
    let seeded_v = seeded_for(v, init_seed, tinymt_state, None);
    &&& mt_update_fits(seeded_v, mt_state)
    &&& tinymt_update_fits(mt_updated(seeded_v, mt_state), tinymt_state)
}

/// What a frame's update reports.
#[derive(Clone, Copy, Debug, PartialEq, Eq, Structural)]
pub struct Gen6Update {
    /// The input to write into the game's input redirection, if any.
    pub redirect: Option<u32>,
    /// Whether the game's Mersenne Twister word was found.
    pub mt_state_found: bool,
    /// Whether the game's TinyMT state was found.
    pub tinymt_state_found: bool,
}

/// A tracker for the generation 6 games.
#[derive(Clone, Debug, PartialEq, Eq)]
pub struct Gen6Rng {
    init_seed: u32,
    init_tinymt_state: [u32; 4],
    mt_rng: MT,
    tinymt_rng: TinyMT,
    mt_advances: u32,
    input_advances: Vec<u32>,
    input_buttons: Vec<u32>,
    tinymt_advances: u32,
    mt_state: u32,
}

impl View for Gen6Rng {
    type V = Gen6RngView;

    closed spec fn view(&self) -> Gen6RngView {
        Gen6RngView {
            init_seed: self.init_seed,
            init_tinymt_state: self.init_tinymt_state@,
            mt_rng: self.mt_rng@,
            tinymt_rng: self.tinymt_rng@,
            mt_advances: self.mt_advances,
            input_advances: self.input_advances@,
            input_buttons: self.input_buttons@,
            tinymt_advances: self.tinymt_advances,
            mt_state: self.mt_state,
        }
    }
}

/// A well-formed tracker state: a well-formed Mersenne Twister, TinyMT states
/// of four words, and as many buttons as advances in the input list.
pub open spec fn gen6_wf(v: Gen6RngView) -> bool {
    &&& v.mt_rng.words.len() == 624
    &&& v.mt_rng.index <= 624
    &&& v.tinymt_rng.len() == 4
    &&& v.init_tinymt_state.len() == 4
    &&& v.input_advances.len() == v.input_buttons.len()
}

impl Gen6Rng {
    /// The tracker's state is well formed.
    pub open spec fn wf(&self) -> bool {
        gen6_wf(self@)
    }

    /// How many times the game's Mersenne Twister has advanced since it was seeded.
    pub fn get_mt_advances(&self) -> (r: u32)
        ensures
            r == self@.mt_advances,
    {
        self.mt_advances
    }

    /// How many times the game's TinyMT has advanced since the tracker started.
    pub fn get_tinymt_advances(&self) -> (r: u32)
        ensures
            r == self@.tinymt_advances,
    {
        self.tinymt_advances
    }

    /// The TinyMT state that the tracker started from.
    pub fn get_initial_tinymt_state(&self) -> (r: [u32; 4])
        ensures
            r@ == self@.init_tinymt_state,
    {
        self.init_tinymt_state
    }

    /// The seed that the tracker was started from.
    pub fn get_init_seed(&self) -> (r: u32)
        ensures
            r == self@.init_seed,
    {
        self.init_seed
    }

    /// The last Mersenne Twister word that the game was seen at.
    pub fn get_mt_state(&self) -> (r: u32)
        ensures
            r == self@.mt_state,
    {
        self.mt_state
    }

    /// Replaces the generator that follows the game's Mersenne Twister.
    pub fn set_mt_rng(&mut self, mt_rng: MT)
        requires
            old(self).wf(),
            mt_rng.wf(),
        ensures
            final(self).wf(),
            final(self)@ == (Gen6RngView { mt_rng: mt_rng@, ..old(self)@ }),
    {
        self.mt_rng = mt_rng;
    }

    /// Replaces the generator that follows the game's TinyMT.
    pub fn set_tinymt_rng(&mut self, tinymt_rng: TinyMT)
        requires
            old(self).wf(),
            tinymt_rng@.len() == 4,
        ensures
            final(self).wf(),
            final(self)@ == (Gen6RngView { tinymt_rng: tinymt_rng@, ..old(self)@ }),
    {
        self.tinymt_rng = tinymt_rng;
    }

    /// Whether the game's seed `init_seed` starts the tracker again; the
    /// input list is to be downloaded then, and handed to `update`.
    pub fn needs_reseed(&self, init_seed: u32) -> (r: bool)
        ensures
            r == needs_reseed(self@, init_seed),
    {
        self.init_seed != init_seed && init_seed != 0
    }

    /// Whether a frame with the game's seed `init_seed`, Mersenne Twister word
    /// `mt_state` and TinyMT state `tinymt_state` keeps both advance counts in
    /// range, so that `update` can take it.
    pub fn update_fits(&self, init_seed: u32, mt_state: u32, tinymt_state: [u32; 4]) -> (r: bool)
        requires
            self.wf(),
        ensures
            r == gen6_update_fits(self@, init_seed, mt_state, tinymt_state@),
    {
        if self.init_seed != init_seed && init_seed != 0 {
            proof {
                lemma_mt_search_bounded(init_seed, seeded(init_seed), mt_state, 0);
                lemma_tinymt_search_bounded(tinymt_state@, tinymt_state@, 0);
            }
            return true;
        }
        let mt_fits = match mt_steps_to(&self.mt_rng, self.mt_state, mt_state) {
            Some(k) => self.mt_advances as u64 + k as u64 <= u32::MAX as u64,
            None => true,
        };
        let tinymt_fits = match tinymt_steps_to(&self.tinymt_rng, &tinymt_state) {
            Some(k) => self.tinymt_advances as u64 + k as u64 <= u32::MAX as u64,
            None => true,
        };
        mt_fits && tinymt_fits
    }

    /// One frame of tracking. Starts the tracker again when the game's seed
    /// calls for it (with the input list `downloaded`, if one could be
    /// downloaded), follows both generators to the states the game reported,
    /// and returns the input to write into the game's input redirection,
    /// whose current value is `current_input` (`None`: nothing to write).
    pub fn update(
        &mut self,
        init_seed: u32,
        mt_state: u32,
        tinymt_state: [u32; 4],
        downloaded: Option<&[u8; 512]>,
        current_input: u32,
    ) -> (r: Gen6Update)
        requires
            old(self).wf(),
            gen6_update_fits(old(self)@, init_seed, mt_state, tinymt_state@),
        ensures
            final(self).wf(),
            final(self)@ == gen6_updated(
                old(self)@,
                init_seed,
                mt_state,
                tinymt_state@,
                download_view(downloaded),
            ),
            r.redirect == redirected_input(final(self)@, current_input),
            r.mt_state_found == mt_search(
                seeded_for(old(self)@, init_seed, tinymt_state@, download_view(downloaded)).mt_state,
                seeded_for(old(self)@, init_seed, tinymt_state@, download_view(downloaded)).mt_rng,
                mt_state,
                0,
            ) is Some,
            r.tinymt_state_found == tinymt_search(
                seeded_for(old(self)@, init_seed, tinymt_state@, download_view(downloaded)).tinymt_rng,
                tinymt_state@,
                0,
            ) is Some,
    {
        if self.init_seed != init_seed && init_seed != 0 {
            self.mt_rng = MT::new(init_seed);
            self.tinymt_rng = TinyMT::new(tinymt_state);
            self.mt_advances = 0;
            self.input_advances = Vec::new();
            self.input_buttons = Vec::new();
            self.tinymt_advances = 0;
            self.init_seed = init_seed;
            self.init_tinymt_state = tinymt_state;
            self.mt_state = init_seed;
            match downloaded {
                Some(buffer) => {
                    let (advances, buttons) = decode_inputs(buffer);
                    self.input_advances = advances;
                    self.input_buttons = buttons;
                },
                None => {},
            }
            assert(self@ == reseeded(init_seed, tinymt_state@, download_view(downloaded)));
        }
        let mt_state_found = self.update_mt(mt_state);
        let tinymt_state_found = self.update_tinymt(tinymt_state);
        Gen6Update {
            redirect: self.redirected_input(current_input),
            mt_state_found,
            tinymt_state_found,
        }
    }

    /// The input to write into the game's input redirection, whose current
    /// value is `current_input`.
    fn redirected_input(&self, current_input: u32) -> (r: Option<u32>)
        requires
            self.wf(),
        ensures
            r == redirected_input(self@, current_input),
    {
        let mut i: usize = 0;
        while i < self.input_advances.len()
            invariant
                self.wf(),
                i <= self.input_advances.len(),
                forall|j: int| 0 <= j < i ==> self.input_advances@[j] != self.mt_advances,
            decreases self.input_advances.len() - i,
        {
            if self.input_advances[i] == self.mt_advances {
                proof {
                    self.input_advances@.index_of_first_ensures(self.mt_advances);
                    assert(self.input_advances@.contains(self.mt_advances));
                }
                return Some(self.input_buttons[i]);
            }
            i = i + 1;
        }
        proof {
            self.input_advances@.index_of_first_ensures(self.mt_advances);
        }
        if current_input != NO_BUTTONS {
            Some(NO_BUTTONS)
        } else {
            None
        }
    }

    /// Follows the game's Mersenne Twister to `mt_state`: steps the tracker's
    /// generator until it hands out `mt_state`, at most `SEARCH_LIMIT - 1`
    /// times, and counts the steps; when the state is not found the
    /// generator is left `SEARCH_LIMIT` steps on and the counts stay as they were.
    /// Returns whether the state was found.
    pub fn update_mt(&mut self, mt_state: u32) -> (found: bool)
        requires
            old(self).wf(),
            mt_update_fits(old(self)@, mt_state),
        ensures
            final(self).wf(),
            final(self)@ == mt_updated(old(self)@, mt_state),
            found == mt_search(old(self)@.mt_state, old(self)@.mt_rng, mt_state, 0) is Some,
    {
        let ghost start = self@;
        let mut temp_mt_state = self.mt_state;
        let mut advances: u32 = 0;
        let mut is_state_found = false;
        while !is_state_found && advances < SEARCH_LIMIT
            invariant
                advances <= SEARCH_LIMIT,
                start == old(self)@,
                gen6_wf(start),
                gen6_wf(self@),
                mt_update_fits(start, mt_state),
                !is_state_found ==> {
                    &&& self@ == (Gen6RngView { mt_rng: mt_advance(start.mt_rng, advances as nat), ..start })
                    &&& mt_search(start.mt_state, start.mt_rng, mt_state, 0)
                        == mt_search(temp_mt_state, self@.mt_rng, mt_state, advances as nat)
                },
                is_state_found ==> self@ == mt_updated(start, mt_state),
                is_state_found ==> mt_search(start.mt_state, start.mt_rng, mt_state, 0) is Some,
            decreases SEARCH_LIMIT - advances + (if is_state_found { 0int } else { 1int }),
        {
            if mt_state == temp_mt_state {
                self.mt_state = temp_mt_state;
                self.mt_advances = self.mt_advances + advances;
                is_state_found = true;
            } else {
                temp_mt_state = self.mt_rng.next();
                advances = advances + 1;
            }
        }
        is_state_found
    }

    /// Follows the game's TinyMT to `tinymt_state`: steps the tracker's
    /// generator until its state is `tinymt_state`, at most
    /// `SEARCH_LIMIT - 1` times, and counts the steps; when the state is not
    /// found the generator is left `SEARCH_LIMIT` steps on and the count
    /// stays as it was.
    /// Returns whether the state was found.
    pub fn update_tinymt(&mut self, tinymt_state: [u32; 4]) -> (found: bool)
        requires
            old(self).wf(),
            tinymt_update_fits(old(self)@, tinymt_state@),
        ensures
            final(self).wf(),
            final(self)@ == tinymt_updated(old(self)@, tinymt_state@),
            found == tinymt_search(old(self)@.tinymt_rng, tinymt_state@, 0) is Some,
    {
        let ghost start = self@;
        let mut advances: u32 = 0;
        let mut is_state_found = false;
        while !is_state_found && advances < SEARCH_LIMIT
            invariant
                advances <= SEARCH_LIMIT,
                start == old(self)@,
                gen6_wf(start),
                gen6_wf(self@),
                tinymt_update_fits(start, tinymt_state@),
                !is_state_found ==> {
                    &&& self@ == (Gen6RngView {
                        tinymt_rng: tinymt_advance(start.tinymt_rng, advances as nat),
                        ..start
                    })
                    &&& tinymt_search(start.tinymt_rng, tinymt_state@, 0)
                        == tinymt_search(self@.tinymt_rng, tinymt_state@, advances as nat)
                },
                is_state_found ==> self@ == tinymt_updated(start, tinymt_state@),
                is_state_found ==> tinymt_search(start.tinymt_rng, tinymt_state@, 0) is Some,
            decreases SEARCH_LIMIT - advances + (if is_state_found { 0int } else { 1int }),
        {
            let current = self.tinymt_rng.get_state();
            if same_state(&tinymt_state, &current) {
                self.tinymt_advances = self.tinymt_advances + advances;
                is_state_found = true;
            } else {
                self.tinymt_rng.next_state();
                advances = advances + 1;
            }
        }
        is_state_found
    }
}

/// The advances and buttons of a downloaded input list.
fn decode_inputs(buffer: &[u8]) -> (r: (Vec<u32>, Vec<u32>))
    requires
        buffer.len() >= 8 * INPUT_PAIRS,
    ensures
        r.0@ == downloaded_advances(buffer@),
        r.1@ == downloaded_buttons(buffer@),
{
    let mut advances: Vec<u32> = Vec::new();
    let mut buttons: Vec<u32> = Vec::new();
    let mut i: usize = 0;
    while i < INPUT_PAIRS
        invariant
            i <= INPUT_PAIRS,
            buffer.len() >= 8 * INPUT_PAIRS,
            advances@ =~= downloaded_advances(buffer@).take(i as int),
            buttons@ =~= downloaded_buttons(buffer@).take(i as int),
        decreases INPUT_PAIRS - i,
    {
        advances.push(read_le_u32(buffer, i * 8));
        buttons.push(read_le_u32(buffer, i * 8 + 4));
        i = i + 1;
    }
    assert(advances@ =~= downloaded_advances(buffer@));
    assert(buttons@ =~= downloaded_buttons(buffer@));
    (advances, buttons)
}

impl Default for Gen6Rng {
    /// A tracker that has not been started: every count, seed and state zero.
    fn default() -> (r: Gen6Rng)
        ensures
            r.wf(),
            r@ == (Gen6RngView {
                init_seed: 0,
                init_tinymt_state: seq![0u32, 0u32, 0u32, 0u32],
                mt_rng: seeded(0),
                tinymt_rng: seq![0u32, 0u32, 0u32, 0u32],
                mt_advances: 0,
                input_advances: Seq::empty(),
                input_buttons: Seq::empty(),
                tinymt_advances: 0,
                mt_state: 0,
            }),
    {
        let r = Gen6Rng {
            init_seed: 0,
            init_tinymt_state: [0u32; 4],
            mt_rng: MT::default(),
            tinymt_rng: TinyMT::default(),
            mt_advances: 0,
            input_advances: Vec::new(),
            input_buttons: Vec::new(),
            tinymt_advances: 0,
            mt_state: 0,
        };
        assert(r.init_tinymt_state@ =~= seq![0u32, 0u32, 0u32, 0u32]);
        r
    }
}

/// How many calls of `mt` it takes to find `target`, starting from the word
/// `current` (see `mt_search`).
fn mt_steps_to(mt: &MT, current: u32, target: u32) -> (r: Option<u32>)
    requires
        mt.wf(),
    ensures
        match r {
            Some(k) => mt_search(current, mt@, target, 0) == Some(k as nat),
            None => mt_search(current, mt@, target, 0) is None,
        },
{
    let ghost start = mt@;
    let mut rng = mt.duplicate();
    let mut temp = current;
    let mut advances: u32 = 0;
    while advances < SEARCH_LIMIT
        invariant
            advances <= SEARCH_LIMIT,
            rng.wf(),
            start == mt@,
            mt_search(current, start, target, 0) == mt_search(temp, rng@, target, advances as nat),
        decreases SEARCH_LIMIT - advances,
    {
        if temp == target {
            assert(mt_search(temp, rng@, target, advances as nat) == Some(advances as nat));
            return Some(advances);
        }
        temp = rng.next();
        advances = advances + 1;
    }
    None
}

/// How many steps of `tinymt` it takes to reach `target` (see `tinymt_search`).
fn tinymt_steps_to(tinymt: &TinyMT, target: &[u32; 4]) -> (r: Option<u32>)
    requires
        tinymt@.len() == 4,
    ensures
        match r {
            Some(k) => tinymt_search(tinymt@, target@, 0) == Some(k as nat),
            None => tinymt_search(tinymt@, target@, 0) is None,
        },
{
    let ghost start = tinymt@;
    let mut rng = *tinymt;
    let mut advances: u32 = 0;
    while advances < SEARCH_LIMIT
        invariant
            advances <= SEARCH_LIMIT,
            rng@.len() == 4,
            start == tinymt@,
            tinymt_search(start, target@, 0) == tinymt_search(rng@, target@, advances as nat),
        decreases SEARCH_LIMIT - advances,
    {
        let current = rng.get_state();
        if same_state(target, &current) {
            return Some(advances);
        }
        rng.next_state();
        advances = advances + 1;
    }
    None
}

/// A search finds its word, if at all, before `SEARCH_LIMIT` calls.
pub proof fn lemma_mt_search_bounded(current: u32, rng: MtState, target: u32, k: nat)
    ensures
        mt_search(current, rng, target, k) matches Some(j) ==> j < 9999,
    decreases 9999 - k,
{
    if k < 9999 && current != target {
        lemma_mt_search_bounded(mt_step(rng).1, mt_step(rng).0, target, k + 1);
    }
}

/// A search finds its state, if at all, before `SEARCH_LIMIT` steps.
pub proof fn lemma_tinymt_search_bounded(state: Seq<u32>, target: Seq<u32>, k: nat)
    ensures
        tinymt_search(state, target, k) matches Some(j) ==> j < 9999,
    decreases 9999 - k,
{
    if k < 9999 && state != target {
        lemma_tinymt_search_bounded(tinymt_next(state), target, k + 1);
    }
}

/// Whether two TinyMT states are equal, word by word.
fn same_state(a: &[u32; 4], b: &[u32; 4]) -> (r: bool)
    ensures
        r == (a@ == b@),
{
    let r = a[0] == b[0] && a[1] == b[1] && a[2] == b[2] && a[3] == b[3];
    proof {
        if r {
            assert(a@ =~= b@);
        }
    }
    r
}

/// Once the tracker has found the game's Mersenne Twister word, seeing the
/// same word again changes nothing.
pub proof fn lemma_mt_update_idempotent(v: Gen6RngView, mt_state: u32)
    requires
        mt_search(v.mt_state, v.mt_rng, mt_state, 0) is Some,
    ensures
        mt_updated(mt_updated(v, mt_state), mt_state) == mt_updated(v, mt_state),
{
    let w = mt_updated(v, mt_state);
    assert(mt_search(w.mt_state, w.mt_rng, mt_state, 0) == Some(0nat));
    assert(mt_advance(w.mt_rng, 0) == w.mt_rng);
}

/// Once the tracker has found the game's TinyMT state, seeing the same
/// state again changes nothing.
pub proof fn lemma_tinymt_update_idempotent(v: Gen6RngView, tinymt_state: Seq<u32>)
    requires
        tinymt_search(v.tinymt_rng, tinymt_state, 0) is Some,
    ensures
        tinymt_updated(tinymt_updated(v, tinymt_state), tinymt_state) == tinymt_updated(v, tinymt_state),
{
    lemma_tinymt_search_found(v.tinymt_rng, tinymt_state, 0);
    let w = tinymt_updated(v, tinymt_state);
    assert(tinymt_search(w.tinymt_rng, tinymt_state, 0) == Some(0nat));
    assert(tinymt_advance(w.tinymt_rng, 0) == w.tinymt_rng);
}

/// Where the search finds a TinyMT state after `j` steps, the generator
/// advanced by those steps is in that state.
pub proof fn lemma_tinymt_search_found(state: Seq<u32>, target: Seq<u32>, k: nat)
    requires
        tinymt_search(state, target, k) is Some,
    ensures
        tinymt_search(state, target, k)->0 >= k,
        tinymt_advance(state, (tinymt_search(state, target, k)->0 - k) as nat) == target,
    decreases 9999 - k,
{
    if k < 9999 && state != target {
        lemma_tinymt_search_found(tinymt_next(state), target, k + 1);
        let j = tinymt_search(state, target, k)->0;
        lemma_tinymt_advance_first(state, (j - k - 1) as nat);
    }
}

/// Advancing `k + 1` steps is one step and then `k` more.
pub proof fn lemma_tinymt_advance_first(state: Seq<u32>, k: nat)
    ensures
        tinymt_advance(state, k + 1) == tinymt_advance(tinymt_next(state), k),
    decreases k,
{
    assert(tinymt_advance(state, 0) == state);
    if k > 0 {
        lemma_tinymt_advance_first(state, (k - 1) as nat);
        assert(tinymt_advance(state, k + 1) == tinymt_next(tinymt_advance(state, k)));
        assert(tinymt_advance(tinymt_next(state), k) == tinymt_next(
            tinymt_advance(tinymt_next(state), (k - 1) as nat),
        ));
    } else {
        assert(tinymt_advance(tinymt_next(state), 0) == tinymt_next(state));
    }
}

/// Where the search finds a Mersenne Twister word after `j` calls, the word
/// handed out by the last of them (or the current one, for no call) is the word searched for.
pub proof fn lemma_mt_search_found(current: u32, rng: MtState, target: u32, k: nat)
    requires
        mt_search(current, rng, target, k) is Some,
    ensures
        mt_search(current, rng, target, k)->0 >= k,
        mt_search(current, rng, target, k)->0 == k ==> current == target,
        mt_search(current, rng, target, k)->0 > k ==> mt_step(
            mt_advance(rng, (mt_search(current, rng, target, k)->0 - k - 1) as nat),
        ).1 == target,
    decreases 9999 - k,
{
    if k < 9999 && current != target {
        let (next_rng, word) = (mt_step(rng).0, mt_step(rng).1);
        lemma_mt_search_found(word, next_rng, target, k + 1);
        let j = mt_search(current, rng, target, k)->0;
        if j > k + 1 {
            lemma_mt_advance_first(rng, (j - k - 2) as nat);
        }
    }
}

/// Advancing `k + 1` calls is one call and then `k` more.
pub proof fn lemma_mt_advance_first(st: MtState, k: nat)
    ensures
        mt_advance(st, k + 1) == mt_advance(mt_step(st).0, k),
    decreases k,
{
    assert(mt_advance(st, 0) == st);
    if k > 0 {
        lemma_mt_advance_first(st, (k - 1) as nat);
        assert(mt_advance(st, k + 1) == mt_step(mt_advance(st, k)).0);
        assert(mt_advance(mt_step(st).0, k) == mt_step(mt_advance(mt_step(st).0, (k - 1) as nat)).0);
    } else {
        assert(mt_advance(mt_step(st).0, 0) == mt_step(st).0);
    }
}

/// When the tracker finds the game's word after `k` calls of its generator,
/// its tracked word becomes that word, which is the word its generator handed
/// out at the last of those calls (or the word it tracked already, for `k == 0`).
pub proof fn lemma_mt_update_tracks_word(v: Gen6RngView, mt_state: u32)
    requires
        mt_search(v.mt_state, v.mt_rng, mt_state, 0) is Some,
    ensures
        ({
            let k = mt_search(v.mt_state, v.mt_rng, mt_state, 0)->0;
            &&& mt_updated(v, mt_state).mt_state == mt_state
            &&& mt_updated(v, mt_state).mt_rng == mt_advance(v.mt_rng, k)
            &&& k == 0 ==> v.mt_state == mt_state
            &&& k > 0 ==> mt_step(mt_advance(v.mt_rng, (k - 1) as nat)).1 == mt_state
        }),
{
    lemma_mt_search_found(v.mt_state, v.mt_rng, mt_state, 0);
}

/// A tracker started again tracks its seed as its word, which is the first
/// word that its new generator hands out, at zero advances.
pub proof fn lemma_reseed_tracks_first_word(init_seed: u32, tinymt_state: Seq<u32>, downloaded: Option<Seq<u8>>)
    ensures
        reseeded(init_seed, tinymt_state, downloaded).mt_state == mt_step(
            reseeded(init_seed, tinymt_state, downloaded).mt_rng,
        ).1,
        reseeded(init_seed, tinymt_state, downloaded).mt_advances == 0,
        reseeded(init_seed, tinymt_state, downloaded).tinymt_advances == 0,
{
    crate::rng::mt::lemma_seeded_first_word(init_seed);
}

/// Advancing `a` calls and then `b` more is advancing `a + b` calls.
pub proof fn lemma_mt_advance_adds(st: MtState, a: nat, b: nat)
    ensures
        mt_advance(mt_advance(st, a), b) == mt_advance(st, a + b),
    decreases b,
{
    if b > 0 {
        lemma_mt_advance_adds(st, a, (b - 1) as nat);
        assert(mt_advance(st, a + b) == mt_step(mt_advance(st, (a + b - 1) as nat)).0);
    }
}

/// Advancing `a` steps and then `b` more is advancing `a + b` steps.
pub proof fn lemma_tinymt_advance_adds(s: Seq<u32>, a: nat, b: nat)
    ensures
        tinymt_advance(tinymt_advance(s, a), b) == tinymt_advance(s, a + b),
    decreases b,
{
    if b > 0 {
        lemma_tinymt_advance_adds(s, a, (b - 1) as nat);
        assert(tinymt_advance(s, a + b) == tinymt_next(tinymt_advance(s, (a + b - 1) as nat)));
    }
}

/// The tracker's Mersenne Twister is as many calls from the game's seed as
/// the advance count says.
pub open spec fn mt_counts_from_seed(v: Gen6RngView) -> bool {
    v.mt_rng == mt_advance(seeded(v.init_seed), v.mt_advances as nat)
}

/// The tracker's TinyMT is as many steps from its first state as the
/// advance count says.
pub open spec fn tinymt_counts_from_start(v: Gen6RngView) -> bool {
    v.tinymt_rng == tinymt_advance(v.init_tinymt_state, v.tinymt_advances as nat)
}

/// A tracker started again counts its generators from their seeds; each
/// state found keeps that so, and a state not found is the only thing that
/// breaks it (the generator moved on without the count).
pub proof fn lemma_advance_counts(
    v: Gen6RngView,
    init_seed: u32,
    tinymt_state: Seq<u32>,
    downloaded: Option<Seq<u8>>,
    mt_state: u32,
)
    ensures
        mt_counts_from_seed(reseeded(init_seed, tinymt_state, downloaded)),
        tinymt_counts_from_start(reseeded(init_seed, tinymt_state, downloaded)),
        mt_counts_from_seed(v) && mt_update_fits(v, mt_state) && mt_search(v.mt_state, v.mt_rng, mt_state, 0) is Some
            ==> mt_counts_from_seed(mt_updated(v, mt_state)),
        tinymt_counts_from_start(v) && tinymt_update_fits(v, tinymt_state) && tinymt_search(v.tinymt_rng, tinymt_state, 0) is Some
            ==> tinymt_counts_from_start(tinymt_updated(v, tinymt_state)),
        mt_updated(v, mt_state).init_seed == v.init_seed,
        tinymt_updated(v, tinymt_state).init_tinymt_state == v.init_tinymt_state,
{
    assert(mt_advance(seeded(init_seed), 0) == seeded(init_seed));
    assert(tinymt_advance(tinymt_state, 0) == tinymt_state);
    if mt_search(v.mt_state, v.mt_rng, mt_state, 0) is Some {
        let k = mt_search(v.mt_state, v.mt_rng, mt_state, 0)->0;
        lemma_mt_advance_adds(seeded(v.init_seed), v.mt_advances as nat, k);
    }
    if tinymt_search(v.tinymt_rng, tinymt_state, 0) is Some {
        let k = tinymt_search(v.tinymt_rng, tinymt_state, 0)->0;
        lemma_tinymt_advance_adds(v.init_tinymt_state, v.tinymt_advances as nat, k);
    }
}

/// A frame in which the game reports a new non-zero seed starts the tracker
/// again from scratch: whatever input list it held is dropped; the list is
/// the one downloaded for the new seed, all 64 pairs of it, or empty when
/// none could be downloaded, so that no button press of the last seed is ever
/// redirected into the new game. The counts start again from zero and the
/// generators from the new seed and state.
pub proof fn lemma_reseed_starts_afresh(
    v: Gen6RngView,
    init_seed: u32,
    mt_state: u32,
    tinymt_state: Seq<u32>,
    buffer: Seq<u8>,
    current_input: u32,
)
    requires
        v.init_seed != init_seed,
        init_seed != 0,
    ensures
        gen6_updated(v, init_seed, mt_state, tinymt_state, None).input_advances.len() == 0,
        gen6_updated(v, init_seed, mt_state, tinymt_state, None).input_buttons.len() == 0,
        redirected_input(gen6_updated(v, init_seed, mt_state, tinymt_state, None), current_input)
            == (if current_input != 0xFFF { Some(0xFFFu32) } else { None::<u32> }),
        gen6_updated(v, init_seed, mt_state, tinymt_state, Some(buffer)).input_advances.len() == 64,
        gen6_updated(v, init_seed, mt_state, tinymt_state, Some(buffer)).input_buttons.len() == 64,
        forall|i: int| 0 <= i < 64 ==> {
            &&& #[trigger] gen6_updated(v, init_seed, mt_state, tinymt_state, Some(buffer)).input_advances[i]
                == buffer[8 * i] + 0x100 * buffer[8 * i + 1] + 0x10000 * buffer[8 * i + 2] + 0x1000000
                * buffer[8 * i + 3]
            &&& gen6_updated(v, init_seed, mt_state, tinymt_state, Some(buffer)).input_buttons[i]
                == buffer[8 * i + 4] + 0x100 * buffer[8 * i + 5] + 0x10000 * buffer[8 * i + 6] + 0x1000000
                * buffer[8 * i + 7]
        },
        gen6_updated(v, init_seed, mt_state, tinymt_state, None).init_seed == init_seed,
        gen6_updated(v, init_seed, mt_state, tinymt_state, None).init_tinymt_state == tinymt_state,
        mt_search(init_seed, seeded(init_seed), mt_state, 0) matches Some(k)
            ==> gen6_updated(v, init_seed, mt_state, tinymt_state, None).mt_advances == k,
        mt_search(init_seed, seeded(init_seed), mt_state, 0) is None
            ==> gen6_updated(v, init_seed, mt_state, tinymt_state, None).mt_advances == 0,
{
    let none_v = gen6_updated(v, init_seed, mt_state, tinymt_state, None);
    assert(none_v.input_advances == Seq::<u32>::empty());
    lemma_mt_search_bounded(init_seed, seeded(init_seed), mt_state, 0);
    let w = gen6_updated(v, init_seed, mt_state, tinymt_state, None);
    w.input_advances.index_of_first_ensures(w.mt_advances);
}

/// The word seen after `j` calls of a generator in state `rng`, starting from
/// the word `current` (no call made yet).
pub open spec fn mt_word_after(current: u32, rng: MtState, j: nat) -> u32 {
    if j == 0 {
        current
    } else {
        mt_step(mt_advance(rng, (j - 1) as nat)).1
    }
}

/// Searching from `k0` calls on finds the first word equal to `target`.
proof fn lemma_mt_search_first(current: u32, rng: MtState, target: u32, k0: nat)
    requires
        k0 <= 9999,
    ensures
        match mt_search(current, rng, target, k0) {
            Some(k) => k0 <= k < 9999 && mt_word_after(current, rng, (k - k0) as nat) == target
                && forall|j: nat| j < k - k0 ==> mt_word_after(current, rng, j) != target,
            None => forall|j: nat| j < 9999 - k0 ==> mt_word_after(current, rng, j) != target,
        },
    decreases 9999 - k0,
{
    if k0 < 9999 && current != target {
        let (next_rng, word) = (mt_step(rng).0, mt_step(rng).1);
        lemma_mt_search_first(word, next_rng, target, k0 + 1);
        assert forall|j: nat| #[trigger] mt_word_after(current, rng, j + 1) == mt_word_after(word, next_rng, j) by {
            if j > 0 {
                lemma_mt_advance_first(rng, (j - 1) as nat);
            }
        }
        match mt_search(word, next_rng, target, k0 + 1) {
            Some(k) => {
                assert(mt_word_after(current, rng, ((k - k0 - 1) as nat) + 1) == mt_word_after(word, next_rng, (k - k0 - 1) as nat));
                assert forall|j: nat| j < k - k0 implies mt_word_after(current, rng, j) != target by {
                    if j > 0 {
                        assert(mt_word_after(current, rng, ((j - 1) as nat) + 1) == mt_word_after(word, next_rng, (j - 1) as nat));
                    }
                }
            },
            None => {
                assert forall|j: nat| j < 9999 - k0 implies mt_word_after(current, rng, j) != target by {
                    if j > 0 {
                        assert(mt_word_after(current, rng, ((j - 1) as nat) + 1) == mt_word_after(word, next_rng, (j - 1) as nat));
                    }
                }
            },
        }
    }
}

/// Searching from `k0` steps on finds the first state equal to `target`.
proof fn lemma_tinymt_search_first(state: Seq<u32>, target: Seq<u32>, k0: nat)
    requires
        k0 <= 9999,
    ensures
        match tinymt_search(state, target, k0) {
            Some(k) => k0 <= k < 9999 && tinymt_advance(state, (k - k0) as nat) == target
                && forall|j: nat| j < k - k0 ==> tinymt_advance(state, j) != target,
            None => forall|j: nat| j < 9999 - k0 ==> tinymt_advance(state, j) != target,
        },
    decreases 9999 - k0,
{
    assert(tinymt_advance(state, 0) == state);
    if k0 < 9999 && state != target {
        lemma_tinymt_search_first(tinymt_next(state), target, k0 + 1);
        assert forall|j: nat| #[trigger] tinymt_advance(state, j + 1) == tinymt_advance(tinymt_next(state), j) by {
            lemma_tinymt_advance_first(state, j);
        }
        match tinymt_search(tinymt_next(state), target, k0 + 1) {
            Some(k) => {
                assert(tinymt_advance(state, ((k - k0 - 1) as nat) + 1) == tinymt_advance(tinymt_next(state), (k - k0 - 1) as nat));
                assert forall|j: nat| j < k - k0 implies tinymt_advance(state, j) != target by {
                    if j > 0 {
                        assert(tinymt_advance(state, ((j - 1) as nat) + 1) == tinymt_advance(tinymt_next(state), (j - 1) as nat));
                    }
                }
            },
            None => {
                assert forall|j: nat| j < 9999 - k0 implies tinymt_advance(state, j) != target by {
                    if j > 0 {
                        assert(tinymt_advance(state, ((j - 1) as nat) + 1) == tinymt_advance(tinymt_next(state), (j - 1) as nat));
                    }
                }
            },
        }
    }
}

/// Following the game's Mersenne Twister counts the calls up to the first
/// word equal to the game's: when the `k`-th word seen (`k < SEARCH_LIMIT`)
/// is the first one equal to `mt_state`, the count grows by `k`, the tracked
/// word becomes `mt_state` and the generator is `k` calls on; when none of the
/// first `SEARCH_LIMIT` words is, the counts and the tracked word stay, and the
/// generator is `SEARCH_LIMIT` calls on.
pub proof fn lemma_mt_update_first_match(v: Gen6RngView, mt_state: u32, k: nat)
    requires
        mt_update_fits(v, mt_state),
    ensures
        (k < 9999 && mt_word_after(v.mt_state, v.mt_rng, k) == mt_state
            && forall|j: nat| j < k ==> mt_word_after(v.mt_state, v.mt_rng, j) != mt_state) ==> {
            &&& mt_updated(v, mt_state).mt_advances == v.mt_advances + k
            &&& mt_updated(v, mt_state).mt_state == mt_state
            &&& mt_updated(v, mt_state).mt_rng == mt_advance(v.mt_rng, k)
        },
        (forall|j: nat| j < 9999 ==> mt_word_after(v.mt_state, v.mt_rng, j) != mt_state) ==> {
            &&& mt_updated(v, mt_state).mt_advances == v.mt_advances
            &&& mt_updated(v, mt_state).mt_state == v.mt_state
            &&& mt_updated(v, mt_state).mt_rng == mt_advance(v.mt_rng, 9999)
        },
        mt_updated(v, mt_state).input_advances == v.input_advances,
        mt_updated(v, mt_state).tinymt_rng == v.tinymt_rng,
        mt_updated(v, mt_state).tinymt_advances == v.tinymt_advances,
{
    lemma_mt_search_first(v.mt_state, v.mt_rng, mt_state, 0);
    match mt_search(v.mt_state, v.mt_rng, mt_state, 0) {
        Some(f) => {
            if k < 9999 && mt_word_after(v.mt_state, v.mt_rng, k) == mt_state
                && forall|j: nat| j < k ==> mt_word_after(v.mt_state, v.mt_rng, j) != mt_state {
                if f < k {
                    assert(mt_word_after(v.mt_state, v.mt_rng, f) != mt_state);
                }
                if k < f {
                    assert(mt_word_after(v.mt_state, v.mt_rng, k) != mt_state);
                }
            }
            assert(mt_word_after(v.mt_state, v.mt_rng, f) == mt_state);
        },
        None => {
            if k < 9999 {
                assert(mt_word_after(v.mt_state, v.mt_rng, k) != mt_state);
            }
        },
    }
}

/// Following the game's TinyMT counts the steps up to the first state equal to
/// the game's: when the state after `k` steps (`k < SEARCH_LIMIT`) is the first
/// one equal to `tinymt_state`, the count grows by `k` and the generator is in
/// that state; when none of the first `SEARCH_LIMIT` states is, the count
/// stays and the generator is `SEARCH_LIMIT` steps on.
pub proof fn lemma_tinymt_update_first_match(v: Gen6RngView, tinymt_state: Seq<u32>, k: nat)
    requires
        tinymt_update_fits(v, tinymt_state),
    ensures
        (k < 9999 && tinymt_advance(v.tinymt_rng, k) == tinymt_state
            && forall|j: nat| j < k ==> tinymt_advance(v.tinymt_rng, j) != tinymt_state) ==> {
            &&& tinymt_updated(v, tinymt_state).tinymt_advances == v.tinymt_advances + k
            &&& tinymt_updated(v, tinymt_state).tinymt_rng == tinymt_state
        },
        (forall|j: nat| j < 9999 ==> tinymt_advance(v.tinymt_rng, j) != tinymt_state) ==> {
            &&& tinymt_updated(v, tinymt_state).tinymt_advances == v.tinymt_advances
            &&& tinymt_updated(v, tinymt_state).tinymt_rng == tinymt_advance(v.tinymt_rng, 9999)
        },
        tinymt_updated(v, tinymt_state).mt_advances == v.mt_advances,
        tinymt_updated(v, tinymt_state).mt_state == v.mt_state,
        tinymt_updated(v, tinymt_state).input_advances == v.input_advances,
{
    lemma_tinymt_search_first(v.tinymt_rng, tinymt_state, 0);
    match tinymt_search(v.tinymt_rng, tinymt_state, 0) {
        Some(f) => {
            if k < 9999 && tinymt_advance(v.tinymt_rng, k) == tinymt_state
                && forall|j: nat| j < k ==> tinymt_advance(v.tinymt_rng, j) != tinymt_state {
                if f < k {
                    assert(tinymt_advance(v.tinymt_rng, f) != tinymt_state);
                }
                if k < f {
                    assert(tinymt_advance(v.tinymt_rng, k) != tinymt_state);
                }
            }
        },
        None => {
            if k < 9999 {
                assert(tinymt_advance(v.tinymt_rng, k) != tinymt_state);
            }
        },
    }
}

/// The redirected input is the buttons of the first pair whose advance is the
/// current advance; when no pair has it, a release of all buttons (0xFFF)
/// unless nothing is pressed already.
pub proof fn lemma_redirect_first_pair(v: Gen6RngView, current_input: u32, i: int)
    requires
        v.input_advances.len() == v.input_buttons.len(),
    ensures
        (0 <= i < v.input_advances.len() && v.input_advances[i] == v.mt_advances
            && forall|j: int| 0 <= j < i ==> v.input_advances[j] != v.mt_advances)
            ==> redirected_input(v, current_input) == Some(v.input_buttons[i]),
        (forall|j: int| 0 <= j < v.input_advances.len() ==> v.input_advances[j] != v.mt_advances)
            ==> redirected_input(v, current_input) == (if current_input != 0xFFF { Some(0xFFFu32) } else { None::<u32> }),
{
    v.input_advances.index_of_first_ensures(v.mt_advances);
    match v.input_advances.index_of_first(v.mt_advances) {
        Some(f) => {
            if 0 <= i < v.input_advances.len() && v.input_advances[i] == v.mt_advances
                && forall|j: int| 0 <= j < i ==> v.input_advances[j] != v.mt_advances {
                if f < i {
                    assert(v.input_advances[f] != v.mt_advances);
                }
                if i < f {
                    assert(v.input_advances[i] != v.mt_advances);
                }
            }
            assert(v.input_advances[f] == v.mt_advances);
        },
        None => {},
    }
}

/// A frame whose seed is the tracker's own, or zero (the game not seeded yet),
/// does not start the tracker again: the seed, the input list and the
/// starting TinyMT state stay, and whatever was downloaded is not used.
pub proof fn lemma_same_seed_keeps_tracker(
    v: Gen6RngView,
    init_seed: u32,
    mt_state: u32,
    tinymt_state: Seq<u32>,
    downloaded: Option<Seq<u8>>,
)
    requires
        init_seed == v.init_seed || init_seed == 0,
    ensures
        gen6_updated(v, init_seed, mt_state, tinymt_state, downloaded).init_seed == v.init_seed,
        gen6_updated(v, init_seed, mt_state, tinymt_state, downloaded).input_advances == v.input_advances,
        gen6_updated(v, init_seed, mt_state, tinymt_state, downloaded).input_buttons == v.input_buttons,
        gen6_updated(v, init_seed, mt_state, tinymt_state, downloaded).init_tinymt_state == v.init_tinymt_state,
        gen6_updated(v, init_seed, mt_state, tinymt_state, downloaded) == gen6_updated(
            v,
            init_seed,
            mt_state,
            tinymt_state,
            None,
        ),
{
}

} // verus!
