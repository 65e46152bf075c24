//! Key-length and key-size codec.
//!
//! A key must be a whole number of 8-byte blocks. Its key code is 20 bytes of
//! header and footer plus the key length rounded up to the next multiple of
//! 32 bytes. The key-size register takes the key length divided by 8, and
//! only encodings below 32 exist, which caps representable keys at 255 bytes.

use vstd::prelude::*;

use crate::errors::PufError;

verus! {

/// Byte length of the key code for a key of `key_len` bytes: a 20-byte
/// overhead plus the key length rounded up to a multiple of 32.
pub open spec fn spec_keycode_len(key_len: int) -> int {
    20 + ((key_len + 31) / 32) * 32
}

/// The same length counted in 32-bit words.
pub open spec fn spec_keycode_words(key_len: int) -> int {
    spec_keycode_len(key_len) / 4
}

/// The key-size register encoding for a key of `size` bytes; in the
/// hardware's terms `(size * 8) >> 6`, which is `size / 8` rounded down.
pub open spec fn spec_size_encoding(size: int) -> int {
    size / 8
}

/// Given the length of a key in bytes, return the byte length of the key
/// code that stands for it. Lengths that are not a multiple of 8 have no key
/// code and are refused.
pub fn key_to_keycode_len(key_len: usize) -> (r: Result<usize, PufError>)
    requires
        key_len <= usize::MAX - 51,
    ensures
        key_len % 8 == 0 ==> r == Ok::<usize, PufError>(spec_keycode_len(key_len as int) as usize),
        key_len % 8 != 0 ==> r == Err::<usize, PufError>(PufError::InvalidKeyLength),
{
    if key_len % 8 != 0 {
        return Err(PufError::InvalidKeyLength);
    }
    let raised = key_len + 31;
    let rounded = raised & !31;
    proof {
        assert(raised & !31usize == (raised / 32) * 32 && raised & !31usize <= raised)
            by (bit_vector);
    }
    Ok(20 + rounded)
}

/// The key-size register value for a key of `size` bytes. Sizes whose
/// encoding would not fit the register's five bits are refused.
pub fn key_size_encoding(size: usize) -> (r: Result<u32, PufError>)
    ensures
        size < 256 ==> r == Ok::<u32, PufError>(spec_size_encoding(size as int) as u32),
        size >= 256 ==> r == Err::<u32, PufError>(PufError::UnsupportedSize),
        r matches Ok(e) ==> e < 32,
{
    if size < 256 {
        let e = (size * 8) >> 6;
        proof {
            assert(size < 256 ==> ((size * 8) as usize) >> 6 == size / 8 && size / 8 < 32) by (bit_vector);
        }
        Ok(e as u32)
    } else {
        Err(PufError::UnsupportedSize)
    }
}

/// Key-code lengths never shrink as the key grows, and they grow only in
/// whole 32-byte steps.
pub proof fn lemma_keycode_len_monotonic(a: usize, b: usize)
    requires
        a % 8 == 0,
        b % 8 == 0,
        a <= b,
        b <= usize::MAX - 51,
    ensures
        spec_keycode_len(a as int) <= spec_keycode_len(b as int),
        (spec_keycode_len(b as int) - spec_keycode_len(a as int)) % 32 == 0,
{
    vstd::arithmetic::div_mod::lemma_div_is_ordered(a + 31, b + 31, 32);
    let qa = (a + 31) / 32;
    let qb = (b + 31) / 32;
    assert(spec_keycode_len(b as int) - spec_keycode_len(a as int) == (qb - qa) * 32);
    vstd::arithmetic::div_mod::lemma_mod_multiples_basic(qb - qa, 32);
}

/// Key lengths that share a 32-byte bucket share a key-code length: the code
/// length depends only on the key length rounded up to a multiple of 32.
pub proof fn lemma_keycode_len_same_bucket(a: usize, b: usize)
    requires
        a % 8 == 0,
        b % 8 == 0,
        (a + 31) / 32 == (b + 31) / 32,
    ensures
        spec_keycode_len(a as int) == spec_keycode_len(b as int),
{
}

} // verus!
