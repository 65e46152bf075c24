//! Tests for the blocking-register bit fields and access-control decisions.

use lpc55_puf::access::BlockTarget;
use lpc55_puf::access::block_index_update;
use lpc55_puf::access::blocking_register_for;
use lpc55_puf::access::index_disabled_in;
use lpc55_puf::access::is_index_blocked;
use lpc55_puf::access::is_index_locked;
use lpc55_puf::access::is_register_locked;
use lpc55_puf::access::lock_register_update;
use lpc55_puf::access::unblock_index_update;
use lpc55_puf::errors::PufError;
use lpc55_puf::fields::disable_index_bits;
use lpc55_puf::fields::enable_index_bits;

/// A register with every index field enabled (`0b10` each) and the lock
/// field reading "writes enabled" (`0b10` in bits 30..=31).
const ALL_ENABLED: u32 = 0x8000_aaaa;

#[test]
fn disable_sets_only_the_named_field() {
    let down = disable_index_bits(ALL_ENABLED, 5);
    assert_eq!((down >> 10) & 3, 1);
    for j in 0..8u32 {
        if j != 5 {
            assert_eq!((down >> (2 * j)) & 3, (ALL_ENABLED >> (2 * j)) & 3);
        }
    }
    assert_eq!(down >> 16, ALL_ENABLED >> 16);
}

#[test]
fn disable_then_enable_restores_the_register() {
    for index in 1..16u32 {
        let down = disable_index_bits(ALL_ENABLED, index);
        assert_ne!(down, ALL_ENABLED);
        let up = enable_index_bits(down, index);
        assert_eq!(up, ALL_ENABLED);
    }
}

#[test]
fn indices_reduce_modulo_8() {
    assert_eq!(disable_index_bits(ALL_ENABLED, 9), disable_index_bits(ALL_ENABLED, 1));
    assert_eq!(enable_index_bits(ALL_ENABLED, 12), enable_index_bits(ALL_ENABLED, 4));
}

#[test]
fn low_register_governs_1_to_7() {
    for index in 1..8u32 {
        assert_eq!(blocking_register_for(index), Ok(BlockTarget::Low));
    }
}

#[test]
fn high_register_governs_8_to_15() {
    for index in 8..16u32 {
        assert_eq!(blocking_register_for(index), Ok(BlockTarget::High));
    }
}

#[test]
fn index_0_and_16_up_are_rejected() {
    assert_eq!(blocking_register_for(0), Err(PufError::IndexOutOfRange));
    assert_eq!(blocking_register_for(16), Err(PufError::IndexOutOfRange));
    assert_eq!(blocking_register_for(1000), Err(PufError::IndexOutOfRange));
    assert_eq!(is_index_blocked(0, 0, 0), Err(PufError::IndexOutOfRange));
    assert_eq!(is_index_blocked(0, 0, 16), Err(PufError::IndexOutOfRange));
}

#[test]
fn block_plan_disables_and_mirrors_shadow() {
    let plan = block_index_update(ALL_ENABLED, 3).unwrap();
    assert_eq!(plan.value, disable_index_bits(ALL_ENABLED, 3));
    assert_eq!(plan.shadow, plan.value & 0xffff);
    assert_eq!(is_index_blocked(plan.value, ALL_ENABLED, 3), Ok(true));
    assert_eq!(is_index_blocked(plan.value, ALL_ENABLED, 4), Ok(false));
}

#[test]
fn unblock_plan_reenables_and_mirrors_shadow() {
    let blocked = disable_index_bits(ALL_ENABLED, 11);
    assert!(index_disabled_in(blocked, 11));
    let plan = unblock_index_update(blocked, 11).unwrap();
    assert_eq!(plan.value, ALL_ENABLED);
    assert_eq!(plan.shadow, ALL_ENABLED & 0xffff);
    assert_eq!(is_index_blocked(ALL_ENABLED, plan.value, 11), Ok(false));
}

#[test]
fn lock_flips_only_the_lock_field() {
    let locked = lock_register_update(ALL_ENABLED);
    assert!(is_register_locked(locked));
    assert_eq!(locked >> 30, 1);
    assert_eq!(locked & 0xffff, ALL_ENABLED & 0xffff);
}

#[test]
fn locked_register_accepts_no_updates() {
    let locked = lock_register_update(ALL_ENABLED);
    assert!(is_register_locked(locked));
    assert_eq!(block_index_update(locked, 3), Err(PufError::RegisterLocked));
    assert_eq!(unblock_index_update(locked, 3), Err(PufError::RegisterLocked));
}

#[test]
fn reserved_lock_states_are_neither_locked_nor_writable() {
    let zeroed = ALL_ENABLED & 0x3fff_ffff;
    let both = ALL_ENABLED | 0xc000_0000;
    assert!(!is_register_locked(zeroed));
    assert!(!is_register_locked(both));
    assert_eq!(block_index_update(zeroed, 2), Err(PufError::RegisterLocked));
    assert_eq!(unblock_index_update(both, 2), Err(PufError::RegisterLocked));
}

#[test]
fn lock_state_is_read_from_the_right_register() {
    let locked_low = lock_register_update(ALL_ENABLED);
    assert_eq!(is_index_locked(locked_low, ALL_ENABLED, 4), Ok(true));
    assert_eq!(is_index_locked(locked_low, ALL_ENABLED, 12), Ok(false));
    assert_eq!(is_index_locked(ALL_ENABLED, locked_low, 12), Ok(true));
    assert_eq!(is_index_locked(locked_low, locked_low, 0), Err(PufError::IndexOutOfRange));
    assert_eq!(is_index_locked(locked_low, locked_low, 16), Err(PufError::IndexOutOfRange));
}

#[test]
fn blocked_bit_is_read_from_the_right_register() {
    let low = disable_index_bits(ALL_ENABLED, 2);
    let high = disable_index_bits(ALL_ENABLED, 13);
    assert_eq!(is_index_blocked(low, high, 2), Ok(true));
    assert_eq!(is_index_blocked(low, high, 13), Ok(true));
    // the same slot in the other register stays clear
    assert_eq!(is_index_blocked(low, high, 10), Ok(false));
    assert_eq!(is_index_blocked(low, high, 5), Ok(false));
}
