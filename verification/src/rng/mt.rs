//! The 32-bit Mersenne Twister (MT19937) as the generation 6 games run it:
//! a generator that hands out its raw state words, one per call, and twists
//! the whole table each time it has handed out all of them.

use vstd::prelude::*;

verus! {

/// Number of words in the generator's table.
pub const MT_SIZE: usize = 624;

/// Distance to the word that is mixed into each word when the table twists.
pub const MT_OFFSET: usize = 397;

/// The abstract state of a Mersenne Twister: its table of words and the
/// position of the next word that it hands out.
pub struct MtState {
    pub words: Seq<u32>,
    pub index: nat,
}

/// Word `i` of the seeded table, from word `i - 1`.
pub open spec fn init_word(prev: u32, i: u32) -> u32 {
    vstd::wrapping::u32_specs::wrapping_add(
        vstd::wrapping::u32_specs::wrapping_mul(0x6C078965u32, prev ^ (prev >> 30u32)),
        i,
    )
}

/// The first `n` words of the table seeded with `seed`.
pub open spec fn init_words(seed: u32, n: nat) -> Seq<u32>
    decreases n,
{
    if n == 0 {
        Seq::empty()
    } else if n == 1 {
        seq![seed]
    } else {
        let prev = init_words(seed, (n - 1) as nat);
        prev.push(init_word(prev.last(), (n - 1) as u32))
    }
}

/// The new value of a word when the table twists, from the word itself, the
/// word after it and the word `MT_OFFSET` places further on.
pub open spec fn twist_word(cur: u32, next: u32, far: u32) -> u32 {
    let y = (cur & 0x80000000u32) | (next & 0x7fffffffu32);
    let v = far ^ (y >> 1u32);
    if y & 1u32 == 0 {
        v
    } else {
        v ^ 0x9908b0dfu32
    }
}

/// The table after its first `n` words have been twisted in place, in order.
pub open spec fn twist_prefix(words: Seq<u32>, n: nat) -> Seq<u32>
    decreases n,
{
    if n == 0 {
        words
    } else {
        let prev = twist_prefix(words, (n - 1) as nat);
        let i = n - 1;
        prev.update(
            i,
            twist_word(prev[i], prev[(i + 1) % 624], prev[(i + 397) % 624]),
        )
    }
}

/// The table after a full twist.
pub open spec fn twist(words: Seq<u32>) -> Seq<u32> {
    twist_prefix(words, 624)
}

/// The state of a generator just seeded with `seed`.
pub open spec fn seeded(seed: u32) -> MtState {
    MtState { words: init_words(seed, 624), index: 0 }
}

/// One call of the generator: the state after it, and the word it hands out.
pub open spec fn mt_step(st: MtState) -> (MtState, u32) {
    let words = if st.index >= 624 { twist(st.words) } else { st.words };
    let i: nat = if st.index >= 624 { 0 } else { st.index };
    (MtState { words, index: i + 1 }, words[i as int])
}

/// The state after `k` calls of the generator.
pub open spec fn mt_advance(st: MtState, k: nat) -> MtState
    decreases k,
{
    if k == 0 {
        st
    } else {
        mt_step(mt_advance(st, (k - 1) as nat)).0
    }
}

/// A well-formed state: a full table and an index within it or just past it.
pub open spec fn mt_state_wf(st: MtState) -> bool {
    st.words.len() == 624 && st.index <= 624
}

/// A Mersenne Twister generator.
#[derive(Clone, Debug, PartialEq, Eq)]
pub struct MT {
    state: Vec<u32>,
    index: usize,
}

impl View for MT {
    type V = MtState;

    closed spec fn view(&self) -> MtState {
        MtState { words: self.state@, index: self.index as nat }
    }
}

impl MT {
    /// The generator's state is well formed.
    pub open spec fn wf(&self) -> bool {
        mt_state_wf(self@)
    }

    /// A generator seeded with `seed`.
    pub fn new(seed: u32) -> (mt: MT)
        ensures
            mt@ == seeded(seed),
            mt.wf(),
    {
        let mut state: Vec<u32> = Vec::new();
        state.push(seed);
        let mut i: usize = 1;
        while i < MT_SIZE
            invariant
                1 <= i <= MT_SIZE,
                state@ == init_words(seed, i as nat),
                state.len() == i,
            decreases MT_SIZE - i,
        {
            let prev = state[i - 1];
            let word = 0x6C078965u32.wrapping_mul(prev ^ (prev >> 30u32)).wrapping_add(i as u32);
            state.push(word);
            i = i + 1;
        }
        MT { state, index: 0 }
    }

    /// A generator in the same state.
    pub fn duplicate(&self) -> (r: MT)
        requires
            self.wf(),
        ensures
            r@ == self@,
            r.wf(),
    {
        let mut state: Vec<u32> = Vec::new();
        let mut i: usize = 0;
        while i < self.state.len()
            invariant
                i <= self.state.len(),
                state@ =~= self.state@.take(i as int),
            decreases self.state.len() - i,
        {
            state.push(self.state[i]);
            i = i + 1;
        }
        assert(state@ =~= self.state@);
        MT { state, index: self.index }
    }

    fn twist(&mut self)
        requires
            old(self).wf(),
        ensures
            final(self).wf(),
            final(self)@.words == twist(old(self)@.words),
            final(self)@.index == old(self)@.index,
    {
        let ghost start = self.state@;
        let mut i: usize = 0;
        while i < MT_SIZE
            invariant
                i <= MT_SIZE,
                self.state.len() == MT_SIZE,
                self.index <= MT_SIZE,
                self.index == old(self).index,
                start == old(self)@.words,
                self.state@ == twist_prefix(start, i as nat),
            decreases MT_SIZE - i,
        {
            let cur = self.state[i];
            let next = self.state[(i + 1) % MT_SIZE];
            let far = self.state[(i + MT_OFFSET) % MT_SIZE];
            let y = (cur & 0x80000000u32) | (next & 0x7fffffffu32);
            let mut v = far ^ (y >> 1u32);
            if y & 1u32 != 0 {
                v = v ^ 0x9908b0dfu32;
            }
            self.state.set(i, v);
            i = i + 1;
        }
    }

    /// Hands out the next word of the table, twisting the table first when
    /// every word of it has been handed out.
    pub fn next(&mut self) -> (r: u32)
        requires
            old(self).wf(),
        ensures
            (final(self)@, r) == mt_step(old(self)@),
            final(self).wf(),
    {
        if self.index >= MT_SIZE {
            self.twist();
            self.index = 0;
        }
        let r = self.state[self.index];
        self.index = self.index + 1;
        r
    }
}

impl Default for MT {
    /// A generator seeded with zero.
    fn default() -> (mt: MT)
        ensures
            mt@ == seeded(0),
            mt.wf(),
    {
        MT::new(0)
    }
}

/// The first word of a seeded table is the seed.
proof fn lemma_init_words_first(seed: u32, n: nat)
    requires
        n >= 1,
    ensures
        init_words(seed, n).len() == n,
        init_words(seed, n)[0] == seed,
    decreases n,
{
    if n > 1 {
        lemma_init_words_first(seed, (n - 1) as nat);
    }
}

/// A generator just seeded hands out its seed first.
pub proof fn lemma_seeded_first_word(seed: u32)
    ensures
        mt_step(seeded(seed)).1 == seed,
{
    lemma_init_words_first(seed, 624);
}

/// While a table twists in place, a word keeps its old value until its turn
/// and its new value after it.
proof fn lemma_twist_prefix_stable(words: Seq<u32>, n: nat)
    requires
        words.len() == 624,
        n <= 624,
    ensures
        twist_prefix(words, n).len() == 624,
        forall|j: int| n <= j < 624 ==> #[trigger] twist_prefix(words, n)[j] == words[j],
        forall|j: int| 0 <= j < n ==> #[trigger] twist_prefix(words, n)[j] == twist_prefix(words, (j + 1) as nat)[j],
    decreases n,
{
    if n > 0 {
        lemma_twist_prefix_stable(words, (n - 1) as nat);
        let p = twist_prefix(words, (n - 1) as nat);
        assert forall|j: int| 0 <= j < n implies #[trigger] twist_prefix(words, n)[j] == twist_prefix(
            words,
            (j + 1) as nat,
        )[j] by {
            if j < n - 1 {
                assert(twist_prefix(words, n)[j] == p[j]);
            }
        }
    }
}

/// The full twist of a table is the in-place MT19937 recurrence, worked
/// through from word 0 to word 623: each word mixes its own top bit with the
/// low bits of the word after it, shifts that right, flips in `0x9908b0df` when
/// the mix is odd, and adds (by xor) the word 397 places further on; where
/// "after" or "further on" wraps past the end of the table, the word it reaches
/// has already been twisted.
pub proof fn lemma_twist_is_mt19937(words: Seq<u32>)
    requires
        words.len() == 624,
    ensures
        twist(words).len() == 624,
        forall|k: int|
            0 <= k < 624 ==> {
                let next = if k + 1 < 624 { words[k + 1] } else { twist(words)[0] };
                let far = if k + 397 < 624 { words[k + 397] } else { twist(words)[k + 397 - 624] };
                let y = (words[k] & 0x80000000u32) | (next & 0x7fffffffu32);
                #[trigger] twist(words)[k] == if y & 1u32 == 0 {
                    far ^ (y >> 1u32)
                } else {
                    far ^ (y >> 1u32) ^ 0x9908b0dfu32
                }
            },
{
    lemma_twist_prefix_stable(words, 624);
    assert forall|k: int| 0 <= k < 624 implies {
        let next = if k + 1 < 624 { words[k + 1] } else { twist(words)[0] };
        let far = if k + 397 < 624 { words[k + 397] } else { twist(words)[k + 397 - 624] };
        let y = (words[k] & 0x80000000u32) | (next & 0x7fffffffu32);
        #[trigger] twist(words)[k] == if y & 1u32 == 0 {
            far ^ (y >> 1u32)
        } else {
            far ^ (y >> 1u32) ^ 0x9908b0dfu32
        }
    } by {
        lemma_twist_prefix_stable(words, k as nat);
        lemma_twist_prefix_stable(words, (k + 1) as nat);
        let p = twist_prefix(words, k as nat);
        assert(twist(words)[k] == twist_prefix(words, (k + 1) as nat)[k]);
        assert(p[k] == words[k]);
        if k + 1 < 624 {
            assert(p[(k + 1) % 624] == words[k + 1]);
        } else {
            assert(p[(k + 1) % 624] == p[0]);
            assert(p[0] == twist_prefix(words, 1)[0]);
            assert(twist(words)[0] == twist_prefix(words, 1)[0]);
        }
        if k + 397 < 624 {
            assert(p[(k + 397) % 624] == words[k + 397]);
        } else {
            let j = k + 397 - 624;
            assert((k + 397) % 624 == j);
            assert(p[j] == twist_prefix(words, (j + 1) as nat)[j]);
            assert(twist(words)[j] == twist_prefix(words, (j + 1) as nat)[j]);
        }
    }
}

/// The words of a table being seeded stay as they are while later words are added.
proof fn lemma_init_words_stable(seed: u32, n: nat)
    requires
        n >= 1,
    ensures
        init_words(seed, n).len() == n,
        forall|j: int| 0 <= j < n ==> #[trigger] init_words(seed, n)[j] == init_words(seed, (j + 1) as nat)[j],
    decreases n,
{
    if n > 1 {
        lemma_init_words_stable(seed, (n - 1) as nat);
    }
}

/// The table seeded with `seed` starts with the seed, and each further word
/// `i` is `1812433253 * (w ^ (w >> 30)) + i` modulo 2^32, where `w` is the word
/// before it.
pub proof fn lemma_seeded_table(seed: u32)
    ensures
        seeded(seed).words.len() == 624,
        seeded(seed).index == 0,
        seeded(seed).words[0] == seed,
        forall|i: int|
            1 <= i < 624 ==> {
                let w = seeded(seed).words[i - 1];
                #[trigger] seeded(seed).words[i] as int == (1812433253 * ((w ^ (w >> 30u32)) as int) + i)
                    % 0x1_0000_0000
            },
{
    lemma_init_words_stable(seed, 624);
    lemma_init_words_first(seed, 624);
    assert forall|i: int| 1 <= i < 624 implies {
        let w = seeded(seed).words[i - 1];
        #[trigger] seeded(seed).words[i] as int == (1812433253 * ((w ^ (w >> 30u32)) as int) + i) % 0x1_0000_0000
    } by {
        lemma_init_words_stable(seed, (i + 1) as nat);
        lemma_init_words_stable(seed, i as nat);
        let w = seeded(seed).words[i - 1];
        assert(init_words(seed, (i + 1) as nat)[i] == init_word(init_words(seed, i as nat).last(), i as u32));
        assert(init_words(seed, i as nat).last() == init_words(seed, i as nat)[i - 1]);
        assert(init_words(seed, i as nat)[i - 1] == w);
        let x = w ^ (w >> 30u32);
        let m = (0x6C078965nat * (x as nat)) % 0x1_0000_0000;
        vstd::arithmetic::div_mod::lemma_add_mod_noop(0x6C078965int * (x as int), i, 0x1_0000_0000);
        vstd::arithmetic::div_mod::lemma_small_mod(i as nat, 0x1_0000_0000);
        assert(0 <= m < 0x1_0000_0000) by {
            vstd::arithmetic::div_mod::lemma_mod_bound(0x6C078965int * (x as int), 0x1_0000_0000);
        }
        if m + i >= 0x1_0000_0000 {
            assert((m + i) % 0x1_0000_0000 == m + i - 0x1_0000_0000) by {
                vstd::arithmetic::div_mod::lemma_small_mod((m + i - 0x1_0000_0000) as nat, 0x1_0000_0000);
                vstd::arithmetic::div_mod::lemma_mod_add_multiples_vanish(m + i - 0x1_0000_0000, 0x1_0000_0000);
            }
        } else {
            vstd::arithmetic::div_mod::lemma_small_mod((m + i) as nat, 0x1_0000_0000);
        }
    }
}

/// A generator hands out its table words one by one, from the one at its
/// index on: `k` calls on from a state at index `i`, with `i + k <= 624`, the
/// next call hands out word `i + k` of the same table; a call at the end of the
/// table hands out the first word of the twisted table.
pub proof fn lemma_words_in_order(st: MtState, k: nat)
    requires
        mt_state_wf(st),
        st.index + k < 624,
    ensures
        mt_advance(st, k).words == st.words,
        mt_advance(st, k).index == st.index + k,
        mt_step(mt_advance(st, k)).1 == st.words[st.index + k as int],
        mt_step(MtState { words: st.words, index: 624 }).1 == twist(st.words)[0],
        mt_step(MtState { words: st.words, index: 624 }).0 == (MtState { words: twist(st.words), index: 1 }),
    decreases k,
{
    if k > 0 {
        lemma_words_in_order(st, (k - 1) as nat);
    }
}

} // verus!
