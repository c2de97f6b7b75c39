//! TinyMT32 as the generation 6 games run it, with the parameters
//! `mat1 = 0x8f7011ee`, `mat2 = 0xfc78ff1f`.

use vstd::prelude::*;

verus! {

/// The state that follows `s` (a state of four words).
pub open spec fn tinymt_next(s: Seq<u32>) -> Seq<u32> {
    let x0 = (s[0] & 0x7fffffffu32) ^ s[1] ^ s[2];
    let x = x0 ^ (x0 << 1u32);
    let y = s[3] ^ (s[3] >> 1u32) ^ x;
    let third = x ^ (y << 10u32);
    if y & 1u32 == 0 {
        seq![s[1], s[2], third, y]
    } else {
        seq![s[1], s[2] ^ 0x8f7011eeu32, third ^ 0xfc78ff1fu32, y]
    }
}

/// The state after `k` steps from `s`.
pub open spec fn tinymt_advance(s: Seq<u32>, k: nat) -> Seq<u32>
    decreases k,
{
    if k == 0 {
        s
    } else {
        tinymt_next(tinymt_advance(s, (k - 1) as nat))
    }
}

/// A TinyMT generator.
#[derive(Clone, Copy, Debug, PartialEq, Eq)]
pub struct TinyMT {
    state: [u32; 4],
}

impl View for TinyMT {
    type V = Seq<u32>;

    closed spec fn view(&self) -> Seq<u32> {
        self.state@
    }
}

impl TinyMT {
    /// A generator whose state is `state`.
    pub fn new(state: [u32; 4]) -> (t: TinyMT)
        ensures
            t@ == state@,
    {
        TinyMT { state }
    }

    /// The generator's four state words.
    pub fn get_state(&self) -> (r: [u32; 4])
        ensures
            r@ == self@,
    {
        self.state
    }

    /// Moves the generator to its next state.
    pub fn next_state(&mut self)
        ensures
            final(self)@ == tinymt_next(old(self)@),
            final(self)@.len() == 4,
    {
        let s = self.state;
        let x0 = (s[0] & 0x7fffffffu32) ^ s[1] ^ s[2];
        let x = x0 ^ (x0 << 1u32);
        let y = s[3] ^ (s[3] >> 1u32) ^ x;
        let third = x ^ (y << 10u32);
        let next = if y & 1u32 == 0 {
            [s[1], s[2], third, y]
        } else {
            [s[1], s[2] ^ 0x8f7011eeu32, third ^ 0xfc78ff1fu32, y]
        };
        self.state = next;
        assert(self.state@ =~= tinymt_next(s@));
    }
}

impl Default for TinyMT {
    /// A generator whose four state words are zero.
    fn default() -> (t: TinyMT)
        ensures
            t@ == seq![0u32, 0u32, 0u32, 0u32],
    {
        TinyMT { state: [0u32; 4] }
    }
}

/// A TinyMT step shifts the state down a word: the new first word is the old
/// second; the new second is the old third, flipped by `0x8f7011ee` exactly when
/// the new last word is odd; and the new third, with its flip of `0xfc78ff1f`
/// undone the same way, is the mix of the first three old words shifted left
/// once and xored in, xored with the new last word shifted left by 10.
pub proof fn lemma_tinymt_step_shape(s: Seq<u32>)
    requires
        s.len() == 4,
    ensures
        tinymt_next(s).len() == 4,
        tinymt_next(s)[0] == s[1],
        tinymt_next(s)[1] == (if tinymt_next(s)[3] & 1u32 == 0 { s[2] } else { s[2] ^ 0x8f7011eeu32 }),
        ({
            let x0 = (s[0] & 0x7fffffffu32) ^ s[1] ^ s[2];
            let x = x0 ^ (x0 << 1u32);
            &&& tinymt_next(s)[3] == s[3] ^ (s[3] >> 1u32) ^ x
            &&& tinymt_next(s)[2] == (if tinymt_next(s)[3] & 1u32 == 0 {
                x ^ (tinymt_next(s)[3] << 10u32)
            } else {
                x ^ (tinymt_next(s)[3] << 10u32) ^ 0xfc78ff1fu32
            })
        }),
{
}

} // verus!
