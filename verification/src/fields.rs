//! Bit-field codec for the index blocking registers and for key-code words.
//!
//! A blocking register packs, for each of eight key indices, a 2-bit field at
//! bit offset `(index mod 8) * 2`: `0b10` means the index is usable
//! ("enabled") and `0b01` means it is blocked ("disabled"). Bits 30..=31 of
//! the same register encode a lock state for the whole register. A key code's
//! first word carries the key index it was generated for in bits 8..=11.

use vstd::prelude::*;

use crate::errors::PufError;

verus! {

/// Field value that marks a key index as usable.
pub const FIELD_ENABLED: u32 = 2;

/// Field value that marks a key index as blocked.
pub const FIELD_DISABLED: u32 = 1;

/// The register slot (0..8) that governs `index`: indices share a register
/// in groups of eight.
pub open spec fn slot_of(index: u32) -> u32 {
    (index % 8) as u32
}

/// Bit offset of the 2-bit enable/disable field for `index`'s slot.
pub open spec fn field_shift(index: u32) -> u32 {
    (slot_of(index) * 2) as u32
}

/// The 2-bit enable/disable field for `index`'s slot in a register value.
pub open spec fn index_field(bits: u32, index: u32) -> u32 {
    (bits >> field_shift(index)) & 3
}

/// A register value with `index`'s field forced to `FIELD_DISABLED`.
pub open spec fn spec_disable_index(bits: u32, index: u32) -> u32 {
    (bits & !(2u32 << field_shift(index))) | (1u32 << field_shift(index))
}

/// A register value with `index`'s field forced to `FIELD_ENABLED`.
pub open spec fn spec_enable_index(bits: u32, index: u32) -> u32 {
    (bits & !(1u32 << field_shift(index))) | (2u32 << field_shift(index))
}

/// The key index embedded in bits 8..=11 of a key code's first word.
pub open spec fn spec_keycode_index(word: u32) -> u32 {
    (word >> 8) & 0xf
}

/// Set the disable bit and clear the enable bit of the field for `index`
/// (taken modulo 8), leaving every other bit of the register value alone.
pub fn disable_index_bits(bits: u32, index: u32) -> (r: u32)
    ensures
        r == spec_disable_index(bits, index),
        index_field(r, index) == FIELD_DISABLED,
        forall|j: u32| j < 8 && j != slot_of(index) ==> index_field(r, j) == index_field(bits, j),
        r >> 16 == bits >> 16,
{
    let slot = index % 8;
    let shift = slot * 2;
    let r = bits & !(2u32 << shift) | (1u32 << shift);
    proof {
        lemma_disable_index_fields(bits, index);
    }
    r
}

/// Set the enable bit and clear the disable bit of the field for `index`
/// (taken modulo 8), leaving every other bit of the register value alone.
pub fn enable_index_bits(bits: u32, index: u32) -> (r: u32)
    ensures
        r == spec_enable_index(bits, index),
        index_field(r, index) == FIELD_ENABLED,
        forall|j: u32| j < 8 && j != slot_of(index) ==> index_field(r, j) == index_field(bits, j),
        r >> 16 == bits >> 16,
{
    let slot = index % 8;
    let shift = slot * 2;
    let r = bits & !(1u32 << shift) | (2u32 << shift);
    proof {
        lemma_enable_index_fields(bits, index);
    }
    r
}

/// Extract the key index a key code was generated for from its first word.
/// A key code with no words at all carries no index and is refused.
pub fn index_from_keycode(keycode: &[u32]) -> (r: Result<u32, PufError>)
    ensures
        keycode@.len() == 0 ==> r == Err::<u32, PufError>(PufError::InvalidKeycode),
        keycode@.len() > 0 ==> r == Ok::<u32, PufError>(spec_keycode_index(keycode@[0])),
        r matches Ok(i) ==> i <= 15,
{
    if keycode.is_empty() {
        Err(PufError::InvalidKeycode)
    } else {
        let w = *vstd::slice::slice_index_get(keycode, 0);
        let i = (w >> 8) & 0xf;
        proof {
            assert((w >> 8) & 0xf <= 15) by (bit_vector);
        }
        Ok(i)
    }
}

/// Disabling an index pins its field to `FIELD_DISABLED` and touches nothing
/// else in the register value.
pub proof fn lemma_disable_index_fields(bits: u32, index: u32)
    ensures
        index_field(spec_disable_index(bits, index), index) == FIELD_DISABLED,
        forall|j: u32|
            j < 8 && j != slot_of(index) ==> index_field(spec_disable_index(bits, index), j)
                == index_field(bits, j),
        spec_disable_index(bits, index) >> 16 == bits >> 16,
{
    let s = slot_of(index);
    let sh = field_shift(index);
    assert(s < 8 && sh == (s * 2) as u32);
    assert(((bits & !(2u32 << sh) | (1u32 << sh)) >> sh) & 3 == 1) by (bit_vector)
        requires
            sh < 16,
            sh % 2 == 0,
    ;
    assert forall|j: u32| j < 8 && j != s implies index_field(spec_disable_index(bits, index), j)
        == index_field(bits, j) by {
        let jh = field_shift(j);
        assert(((bits & !(2u32 << sh) | (1u32 << sh)) >> jh) & 3 == (bits >> jh) & 3)
            by (bit_vector)
            requires
                sh < 16,
                jh < 16,
                sh % 2 == 0,
                jh % 2 == 0,
                sh != jh,
        ;
    }
    assert((bits & !(2u32 << sh) | (1u32 << sh)) >> 16 == bits >> 16) by (bit_vector)
        requires
            sh < 15,
    ;
}

/// Enabling an index pins its field to `FIELD_ENABLED` and touches nothing
/// else in the register value.
pub proof fn lemma_enable_index_fields(bits: u32, index: u32)
    ensures
        index_field(spec_enable_index(bits, index), index) == FIELD_ENABLED,
        forall|j: u32|
            j < 8 && j != slot_of(index) ==> index_field(spec_enable_index(bits, index), j)
                == index_field(bits, j),
        spec_enable_index(bits, index) >> 16 == bits >> 16,
{
    let s = slot_of(index);
    let sh = field_shift(index);
    assert(s < 8 && sh == (s * 2) as u32);
    assert(((bits & !(1u32 << sh) | (2u32 << sh)) >> sh) & 3 == 2) by (bit_vector)
        requires
            sh < 16,
            sh % 2 == 0,
    ;
    assert forall|j: u32| j < 8 && j != s implies index_field(spec_enable_index(bits, index), j)
        == index_field(bits, j) by {
        let jh = field_shift(j);
        assert(((bits & !(1u32 << sh) | (2u32 << sh)) >> jh) & 3 == (bits >> jh) & 3)
            by (bit_vector)
            requires
                sh < 16,
                jh < 16,
                sh % 2 == 0,
                jh % 2 == 0,
                sh != jh,
        ;
    }
    assert((bits & !(1u32 << sh) | (2u32 << sh)) >> 16 == bits >> 16) by (bit_vector)
        requires
            sh < 15,
    ;
}

/// Disabling an index and then enabling it again restores the whole register
/// value, provided the index's field was in the enabled state to begin with.
/// (Blocking overwrites the field, so a field that started out disabled, or
/// in a reserved encoding, comes back as plainly enabled instead.)
pub proof fn lemma_disable_then_enable_restores(bits: u32, index: u32)
    requires
        index_field(bits, index) == FIELD_ENABLED,
    ensures
        spec_enable_index(spec_disable_index(bits, index), index) == bits,
{
    let sh = field_shift(index);
    assert(((bits >> sh) & 3 == 2) ==> ((bits & !(2u32 << sh) | (1u32 << sh)) & !(1u32 << sh) | (
    2u32 << sh)) == bits) by (bit_vector)
        requires
            sh < 16,
            sh % 2 == 0,
    ;
}

} // verus!
