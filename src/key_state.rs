use vstd::prelude::*;

verus! {

/// Bit positions of the logical buttons in a `KeyState`.
pub const LEFT: u16 = 0;
pub const RIGHT: u16 = 1;
pub const UP: u16 = 2;
pub const DOWN: u16 = 3;
pub const MAP: u16 = 4;
pub const INVENTORY: u16 = 5;
pub const JUMP: u16 = 6;
pub const SHOOT: u16 = 7;
pub const NEXT_WEAPON: u16 = 8;
pub const PREV_WEAPON: u16 = 9;
pub const START: u16 = 10;

/// Number of named buttons; higher bits are always clear.
pub const BUTTON_COUNT: u16 = 11;

/// A packed set of button flags, one bit per logical button.
///
/// Its representation is private: verified callers reason about it through
/// `has`, `with` and `rising` and the lemmas of `group_key_state`.
#[derive(Clone, Copy, Debug, PartialEq, Eq)]
pub struct KeyState {
    bits: u16,
}

impl KeyState {
    /// Whether the flag at position `b` is set.
    pub closed spec fn has(self, b: u16) -> bool {
        (self.bits >> b) & 1u16 == 1u16
    }

    /// Only the named bits may be set.
    pub closed spec fn wf(self) -> bool {
        self.bits < 2048u16
    }

    /// The set with flag `b` replaced by `v`.
    pub closed spec fn with(self, b: u16, v: bool) -> KeyState {
        if v {
            KeyState { bits: self.bits | (1u16 << b) }
        } else {
            KeyState { bits: self.bits & !(1u16 << b) }
        }
    }

    /// The flags set in `self` and clear in `prev`: the buttons that went down.
    pub closed spec fn rising(self, prev: KeyState) -> KeyState {
        KeyState { bits: (self.bits ^ prev.bits) & self.bits }
    }

    /// The empty set.
    pub closed spec fn empty() -> KeyState {
        KeyState { bits: 0 }
    }

    pub broadcast proof fn lemma_empty(b: u16)
        ensures
            !(#[trigger] KeyState::empty().has(b)),
            KeyState::empty().wf(),
    {
        assert((0u16 >> b) & 1u16 == 0u16) by (bit_vector);
    }

    pub broadcast proof fn lemma_with(s: KeyState, b: u16, v: bool, j: u16)
        requires
            b < BUTTON_COUNT,
            j < 16,
        ensures
            #[trigger] s.with(b, v).has(j) == if j == b { v } else { s.has(j) },
    {
        let x = s.bits;
        if v {
            assert(((x | (1u16 << b)) >> j) & 1u16 == if j == b { 1u16 } else { (x >> j) & 1u16 })
                by (bit_vector)
                requires
                    b < 16u16,
                    j < 16u16,
            ;
        } else {
            assert(((x & !(1u16 << b)) >> j) & 1u16 == if j == b { 0u16 } else { (x >> j) & 1u16 })
                by (bit_vector)
                requires
                    b < 16u16,
                    j < 16u16,
            ;
        }
    }

    pub broadcast proof fn lemma_with_wf(s: KeyState, b: u16, v: bool)
        requires
            s.wf(),
            b < BUTTON_COUNT,
        ensures
            #[trigger] s.with(b, v).wf(),
    {
        let x = s.bits;
        assert((x | (1u16 << b)) < 2048u16) by (bit_vector)
            requires
                x < 2048u16,
                b < 11u16,
        ;
        assert((x & !(1u16 << b)) < 2048u16) by (bit_vector)
            requires
                x < 2048u16,
        ;
    }

    pub broadcast proof fn lemma_rising(s: KeyState, p: KeyState, j: u16)
        requires
            j < 16,
        ensures
            #[trigger] s.rising(p).has(j) == (s.has(j) && !p.has(j)),
    {
        let x = s.bits;
        let y = p.bits;
        assert((((x ^ y) & x) >> j) & 1u16 == 1u16 <==> ((x >> j) & 1u16 == 1u16 && (y >> j) & 1u16
            != 1u16)) by (bit_vector)
            requires
                j < 16u16,
        ;
    }

    pub broadcast proof fn lemma_rising_wf(s: KeyState, p: KeyState)
        requires
            s.wf(),
        ensures
            #[trigger] s.rising(p).wf(),
    {
        let x = s.bits;
        let y = p.bits;
        assert((x ^ y) & x <= x) by (bit_vector);
    }

    /// The set with no flag.
    pub fn new() -> (r: KeyState)
        ensures
            r == KeyState::empty(),
            r.wf(),
    {
        KeyState { bits: 0 }
    }

    /// Reads flag `b`.
    pub fn get(&self, b: u16) -> (r: bool)
        requires
            b < BUTTON_COUNT,
        ensures
            r == self.has(b),
    {
        (self.bits >> b) & 1 == 1
    }

    /// Sets flag `b` to `v`, leaving the others as they were.
    pub fn set(&mut self, b: u16, v: bool)
        requires
            b < BUTTON_COUNT,
        ensures
            *final(self) == old(self).with(b, v),
    {
        if v {
            self.bits = self.bits | (1u16 << b);
        } else {
            self.bits = self.bits & !(1u16 << b);
        }
    }

    /// The buttons that are down in `self` and were up in `prev`.
    pub fn rising_from(&self, prev: &KeyState) -> (r: KeyState)
        ensures
            r == self.rising(*prev),
    {
        let mut edge = self.bits ^ prev.bits;
        edge = edge & self.bits;
        KeyState { bits: edge }
    }
}

pub broadcast group group_key_state {
    KeyState::lemma_empty,
    KeyState::lemma_with,
    KeyState::lemma_with_wf,
    KeyState::lemma_rising,
    KeyState::lemma_rising_wf,
}

} // verus!
