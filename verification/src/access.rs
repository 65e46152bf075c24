//! Access-control decisions over the two index blocking registers.
//!
//! Indices 1..=7 are governed by the "low" register, 8..=15 by the "high"
//! one; index 0 is a hardware sentinel that no blocking register governs.
//! Each register carries a lock state in its top two bits: `0b10` means
//! writes are enabled, `0b01` means the register is locked until power-on
//! reset, and the remaining encodings are reserved. A reserved lock state is
//! treated as neither locked nor writable. Every blocking-register write
//! must be mirrored into the register's shadow ("DP") register, which takes
//! the low 16 bits of the new value; the update plans computed here carry
//! both words so the pair can never drift apart.

use vstd::prelude::*;

use crate::errors::PufError;
use crate::fields::FIELD_DISABLED;
use crate::fields::FIELD_ENABLED;
use crate::fields::disable_index_bits;
use crate::fields::enable_index_bits;
use crate::fields::field_shift;
use crate::fields::index_field;
use crate::fields::spec_disable_index;
use crate::fields::spec_enable_index;

verus! {

/// What the top two bits of a blocking register say about writability.
#[derive(Clone, Copy, Debug, PartialEq, Eq)]
pub enum LockState {
    /// `0b10`: the register accepts writes.
    WritesEnabled,
    /// `0b01`: the register is locked until power-on reset.
    Locked,
    /// `0b00` or `0b11`: reserved; treated as neither locked nor writable.
    Reserved,
}

/// Which blocking register an operation targets.
#[derive(Clone, Copy, Debug, PartialEq, Eq)]
pub enum BlockTarget {
    /// The register for indices 1..=7.
    Low,
    /// The register for indices 8..=15.
    High,
}

/// The pair of words a blocking-register update writes: the new register
/// value and the mirror of its low 16 bits for the shadow register.
#[derive(Clone, Copy, Debug, PartialEq, Eq)]
pub struct BlockingUpdate {
    /// New value of the primary register.
    pub value: u32,
    /// Value for the shadow register: the low 16 bits of `value`.
    pub shadow: u32,
}

/// The lock state encoded in a register value's top two bits.
pub open spec fn spec_lock_state(bits: u32) -> LockState {
    if bits >> 30 == 2 {
        LockState::WritesEnabled
    } else if bits >> 30 == 1 {
        LockState::Locked
    } else {
        LockState::Reserved
    }
}

/// A register value with its lock state forced to `Locked`: bit 31 cleared,
/// bit 30 set.
pub open spec fn spec_lock_register(bits: u32) -> u32 {
    (bits & !(1u32 << 31)) | (1u32 << 30)
}

/// Whether the disable bit of `index`'s field is set in a register value.
pub open spec fn spec_index_disabled(bits: u32, index: u32) -> bool {
    bits & (1u32 << field_shift(index)) != 0
}

/// Whether `index` is blocked, given the values of the low and high
/// blocking registers. Meaningful for indices 1..=15.
pub open spec fn spec_index_blocked(low: u32, high: u32, index: u32) -> bool {
    if index < 8 {
        spec_index_disabled(low, index)
    } else {
        spec_index_disabled(high, index)
    }
}

/// The blocking register that governs `index`. Index 0 is not a real access
/// slot and indices above 15 do not exist, so both are refused.
pub fn blocking_register_for(index: u32) -> (r: Result<BlockTarget, PufError>)
    ensures
        r == Ok::<BlockTarget, PufError>(BlockTarget::Low) <==> 1 <= index <= 7,
        r == Ok::<BlockTarget, PufError>(BlockTarget::High) <==> 8 <= index <= 15,
        r == Err::<BlockTarget, PufError>(PufError::IndexOutOfRange) <==> (index == 0 || index
            > 15),
{
    if index == 0 || index > 15 {
        Err(PufError::IndexOutOfRange)
    } else if index <= 7 {
        Ok(BlockTarget::Low)
    } else {
        Ok(BlockTarget::High)
    }
}

/// Plan the write that blocks `index` in the register whose current value is
/// `bits`. The plan disables the index's field and mirrors the low half into
/// the shadow word. A register that does not plainly read as writable would
/// drop the write, so no plan is produced for it and no success is claimed.
pub fn block_index_update(bits: u32, index: u32) -> (r: Result<BlockingUpdate, PufError>)
    requires
        1 <= index <= 15,
    ensures
        r is Ok <==> spec_lock_state(bits) is WritesEnabled,
        r == Err::<BlockingUpdate, PufError>(PufError::RegisterLocked) <==> !(spec_lock_state(bits)
            is WritesEnabled),
        r matches Ok(u) ==> u.value == spec_disable_index(bits, index) && u.shadow == u.value
            & 0xffff && index_field(u.value, index) == FIELD_DISABLED,
{
    if (bits >> 30) != 2 {
        return Err(PufError::RegisterLocked);
    }
    let value = disable_index_bits(bits, index);
    Ok(BlockingUpdate { value, shadow: value & 0xffff })
}

/// Plan the write that unblocks `index`: the same as `block_index_update`
/// with the index's field enabled instead of disabled.
pub fn unblock_index_update(bits: u32, index: u32) -> (r: Result<BlockingUpdate, PufError>)
    requires
        1 <= index <= 15,
    ensures
        r is Ok <==> spec_lock_state(bits) is WritesEnabled,
        r == Err::<BlockingUpdate, PufError>(PufError::RegisterLocked) <==> !(spec_lock_state(bits)
            is WritesEnabled),
        r matches Ok(u) ==> u.value == spec_enable_index(bits, index) && u.shadow == u.value
            & 0xffff && index_field(u.value, index) == FIELD_ENABLED,
{
    if (bits >> 30) != 2 {
        return Err(PufError::RegisterLocked);
    }
    let value = enable_index_bits(bits, index);
    Ok(BlockingUpdate { value, shadow: value & 0xffff })
}

/// The value that locks a blocking register until power-on reset. Locking
/// rewrites only the lock field: every enable/disable field, and with them
/// the low half that the shadow register mirrors, stays as it was.
pub fn lock_register_update(bits: u32) -> (r: u32)
    ensures
        r == spec_lock_register(bits),
        spec_lock_state(r) is Locked,
        r & 0xffff == bits & 0xffff,
        forall|j: u32| j < 8 ==> index_field(r, j) == index_field(bits, j),
{
    let r = bits & !(1u32 << 31) | (1u32 << 30);
    proof {
        assert((bits & !(1u32 << 31) | (1u32 << 30)) >> 30 == 1) by (bit_vector);
        assert((bits & !(1u32 << 31) | (1u32 << 30)) & 0xffff == bits & 0xffff) by (bit_vector);
        assert forall|j: u32| j < 8 implies index_field(spec_lock_register(bits), j) == index_field(
            bits,
            j,
        ) by {
            let jh = field_shift(j);
            assert((((bits & !(1u32 << 31)) | (1u32 << 30)) >> jh) & 3 == (bits >> jh) & 3)
                by (bit_vector)
                requires
                    jh < 16,
            ;
        }
    }
    r
}

/// Locking is decisive: a locked register value reads as locked, and since
/// it no longer reads as writable, no block or unblock plan exists for it —
/// only a power-on reset, which rewrites the register wholesale, can bring
/// writability back.
pub proof fn lemma_lock_is_final(bits: u32)
    ensures
        spec_lock_state(spec_lock_register(bits)) is Locked,
        !(spec_lock_state(spec_lock_register(bits)) is WritesEnabled),
{
    assert((bits & !(1u32 << 31) | (1u32 << 30)) >> 30 == 1) by (bit_vector);
}

/// Whether a register value's lock field reads as locked. Reserved lock
/// encodings read as not locked.
pub fn is_register_locked(bits: u32) -> (r: bool)
    ensures
        r <==> spec_lock_state(bits) is Locked,
{
    (bits >> 30) == 1
}

/// Whether the disable bit of `index`'s field (index taken modulo 8) is set
/// in a register value.
pub fn index_disabled_in(bits: u32, index: u32) -> (r: bool)
    ensures
        r <==> spec_index_disabled(bits, index),
{
    let shift = (index % 8) * 2;
    (bits & (1u32 << shift)) != 0
}

/// Whether the register governing `index` is locked, judged from the two
/// blocking register values. Indices outside 1..=15 are a usage error.
pub fn is_index_locked(low: u32, high: u32, index: u32) -> (r: Result<bool, PufError>)
    ensures
        1 <= index <= 7 ==> r == Ok::<bool, PufError>(spec_lock_state(low) is Locked),
        8 <= index <= 15 ==> r == Ok::<bool, PufError>(spec_lock_state(high) is Locked),
        index == 0 || index > 15 ==> r == Err::<bool, PufError>(PufError::IndexOutOfRange),
{
    match blocking_register_for(index) {
        Ok(BlockTarget::Low) => Ok(is_register_locked(low)),
        Ok(BlockTarget::High) => Ok(is_register_locked(high)),
        Err(e) => Err(e),
    }
}

/// Whether `index` is blocked, judged from the two blocking register
/// values. Indices outside 1..=15 are a usage error.
pub fn is_index_blocked(low: u32, high: u32, index: u32) -> (r: Result<bool, PufError>)
    ensures
        1 <= index <= 15 ==> r == Ok::<bool, PufError>(spec_index_blocked(low, high, index)),
        index == 0 || index > 15 ==> r == Err::<bool, PufError>(PufError::IndexOutOfRange),
{
    match blocking_register_for(index) {
        Ok(BlockTarget::Low) => Ok(index_disabled_in(low, index)),
        Ok(BlockTarget::High) => Ok(index_disabled_in(high, index)),
        Err(e) => Err(e),
    }
}

} // verus!
