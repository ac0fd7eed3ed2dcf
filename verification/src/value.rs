//! The type itself, its mathematical model and its two construction policies.

use vstd::prelude::*;
use vstd::std_specs::convert::FromSpec;

verus! {

/// The largest magnitude that nine bits can hold. Its binary form is nine
/// ones, so it is also the mask that keeps the low nine bits of a wider word.
pub const U9_MAX: u16 = 0x1FF;

/// An unsigned integer confined to nine bits.
///
/// The stored word never exceeds [`U9_MAX`]: both construction policies
/// establish this, and a value cannot be changed once it is built. The view
/// of a value is its magnitude as a natural number.
#[derive(Copy, Clone, PartialEq, Eq, Structural, Ord, Hash)]
pub struct U9(u16);

impl View for U9 {
    type V = nat;

    /// The magnitude that the value stands for.
    closed spec fn view(&self) -> nat {
        self.0 as nat
    }
}

impl U9 {
    /// The range invariant: the magnitude fits in nine bits. It holds of every
    /// value that executable code can get hold of.
    #[verifier::type_invariant]
    pub open spec fn wf(self) -> bool {
        self@ <= U9_MAX
    }

    /// Masking policy: keeps the low nine bits of `val` and discards the
    /// rest, so every word is accepted and words that differ by a multiple
    /// of 512 build the same value.
    pub fn from_u16_masked(val: u16) -> (r: U9)
        ensures
            r@ == val & U9_MAX,
            r@ == val % 512,
    {
        proof {
            lemma_mask_is_remainder(val);
        }
        U9(val & U9_MAX)
    }

    /// Strict policy: accepts `val` unchanged when it fits in nine bits, and
    /// refuses it otherwise.
    pub fn try_from_u16(val: u16) -> (r: Option<U9>)
        ensures
            match r {
                Some(x) => val <= U9_MAX && x@ == val,
                None => val > U9_MAX,
            },
    {
        match val {
            0..=U9_MAX => Some(U9(val)),
            _ => None,
        }
    }

    /// A value is determined by its magnitude: two values are equal exactly
    /// when their views are.
    pub proof fn lemma_view_injective(a: U9, b: U9)
        ensures
            (a@ == b@) <==> (a == b),
    {
    }

    /// On a word that fits in nine bits the two policies agree: what masking
    /// builds from it is what strict construction builds from it.
    pub proof fn lemma_policies_agree(val: u16, masked: U9, strict: U9)
        requires
            val <= U9_MAX,
            masked@ == val & U9_MAX,
            strict@ == val,
        ensures
            masked == strict,
    {
        lemma_mask_fixes_range(val);
    }
}

/// The low nine bits of a word are its remainder modulo 512, and they always
/// fit in nine bits.
pub proof fn lemma_mask_is_remainder(val: u16)
    ensures
        val & U9_MAX == val % 512,
        val & U9_MAX <= U9_MAX,
{
    assert(val & U9_MAX == val % 512 && val & U9_MAX <= U9_MAX) by (bit_vector);
}

/// Masking leaves a word as it is exactly when the word fits in nine bits.
pub proof fn lemma_mask_fixes_range(val: u16)
    ensures
        (val & U9_MAX == val) <==> val <= U9_MAX,
{
    assert((val & U9_MAX == val) <==> val <= U9_MAX) by (bit_vector);
}

impl From<u8> for U9 {
    /// Every byte fits in nine bits, so the magnitude is kept as it is.
    fn from(val: u8) -> (r: U9)
        ensures
            r@ == val,
    {
        U9(val.into())
    }
}

impl vstd::std_specs::convert::FromSpecImpl<u8> for U9 {
    open spec fn obeys_from_spec() -> bool {
        true
    }

    closed spec fn from_spec(val: u8) -> U9 {
        U9(val as u16)
    }
}

/// What a byte converts to is a nine-bit value of the byte's own magnitude.
pub proof fn lemma_byte_keeps_magnitude(val: u8)
    ensures
        U9::from_spec(val)@ == val,
        U9::from_spec(val).wf(),
{
}

impl From<U9> for u16 {
    /// The magnitude as a `u16`.
    fn from(val: U9) -> (r: u16)
        ensures
            r == val@,
            r <= U9_MAX,
    {
        proof {
            use_type_invariant(&val);
        }
        val.0
    }
}

impl vstd::std_specs::convert::FromSpecImpl<U9> for u16 {
    open spec fn obeys_from_spec() -> bool {
        true
    }

    open spec fn from_spec(val: U9) -> u16 {
        val@ as u16
    }
}

} // verus!
