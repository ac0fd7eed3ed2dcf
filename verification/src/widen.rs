//! Widening conversions: a nine-bit magnitude fits every primitive integer
//! of sixteen bits or more, signed or not, so none of them can lose anything.

use vstd::prelude::*;
use vstd::std_specs::convert::FromSpec;
use crate::value::U9;
use crate::value::U9_MAX;

verus! {

impl From<U9> for i16 {
    /// The magnitude as an `i16`. Nine bits leave the sign bit clear, so the
    /// result is never negative.
    fn from(val: U9) -> (r: i16)
        ensures
            r == val@,
            0 <= r <= U9_MAX,
    {
        let word: u16 = u16::from(val);
        word as i16
    }
}

impl vstd::std_specs::convert::FromSpecImpl<U9> for i16 {
    open spec fn obeys_from_spec() -> bool {
        true
    }

    open spec fn from_spec(val: U9) -> i16 {
        val@ as i16
    }
}

impl From<U9> for u32 {
    /// The magnitude as a `u32`.
    fn from(val: U9) -> (r: u32)
        ensures
            r == val@,
            0 <= r <= U9_MAX,
    {
        let word: u16 = u16::from(val);
        word.into()
    }
}

impl vstd::std_specs::convert::FromSpecImpl<U9> for u32 {
    open spec fn obeys_from_spec() -> bool {
        true
    }

    open spec fn from_spec(val: U9) -> u32 {
        val@ as u32
    }
}

impl From<U9> for i32 {
    /// The magnitude as an `i32`.
    fn from(val: U9) -> (r: i32)
        ensures
            r == val@,
            0 <= r <= U9_MAX,
    {
        let word: u16 = u16::from(val);
        word as i32
    }
}

impl vstd::std_specs::convert::FromSpecImpl<U9> for i32 {
    open spec fn obeys_from_spec() -> bool {
        true
    }

    open spec fn from_spec(val: U9) -> i32 {
        val@ as i32
    }
}

impl From<U9> for u64 {
    /// The magnitude as a `u64`.
    fn from(val: U9) -> (r: u64)
        ensures
            r == val@,
            0 <= r <= U9_MAX,
    {
        let word: u16 = u16::from(val);
        word.into()
    }
}

impl vstd::std_specs::convert::FromSpecImpl<U9> for u64 {
    open spec fn obeys_from_spec() -> bool {
        true
    }

    open spec fn from_spec(val: U9) -> u64 {
        val@ as u64
    }
}

impl From<U9> for i64 {
    /// The magnitude as an `i64`.
    fn from(val: U9) -> (r: i64)
        ensures
            r == val@,
            0 <= r <= U9_MAX,
    {
        let word: u16 = u16::from(val);
        word as i64
    }
}

impl vstd::std_specs::convert::FromSpecImpl<U9> for i64 {
    open spec fn obeys_from_spec() -> bool {
        true
    }

    open spec fn from_spec(val: U9) -> i64 {
        val@ as i64
    }
}

/// Widening loses nothing: in each of the six integer types the converted
/// number is the magnitude itself.
pub proof fn lemma_widening_is_lossless(x: U9)
    requires
        x.wf(),
    ensures
        u16::from_spec(x) == x@,
        i16::from_spec(x) == x@,
        u32::from_spec(x) == x@,
        i32::from_spec(x) == x@,
        u64::from_spec(x) == x@,
        i64::from_spec(x) == x@,
{
}

/// The `u16` word of a value leads back to it: the word fits in nine bits,
/// so both construction policies take it unchanged, and the value whose
/// magnitude is that word is the value that was converted.
pub proof fn lemma_word_leads_back(x: U9, back: U9)
    requires
        x.wf(),
        back@ == u16::from_spec(x),
    ensures
        u16::from_spec(x) <= U9_MAX,
        u16::from_spec(x) & U9_MAX == u16::from_spec(x),
        back == x,
{
    crate::value::lemma_mask_fixes_range(u16::from_spec(x));
    U9::lemma_view_injective(back, x);
}

} // verus!
