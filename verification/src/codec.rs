//! Big-endian number encodings, as the chain's codec writes and reads them.
use multiversx_sc::codec::{NestedEncode, TopDecode};
use vstd::prelude::*;

verus! {

/// The number that a byte string denotes when read as a big-endian numeral.
pub open spec fn be_value(bytes: Seq<u8>) -> nat
    decreases bytes.len(),
{
    if bytes.len() == 0 {
        0
    } else {
        be_value(bytes.drop_last()) * 256 + bytes.last() as nat
    }
}

/// The big-endian numeral of `value` written on exactly `width` bytes
/// (the low `width` bytes of the number).
pub open spec fn be_bytes(value: nat, width: nat) -> Seq<u8>
    decreases width,
{
    if width == 0 {
        Seq::<u8>::empty()
    } else {
        be_bytes(value / 256, (width - 1) as nat).push((value % 256) as u8)
    }
}

/// Reads a whole byte string as an unsigned 64-bit number.
///
/// Calls the codec's `u64::top_decode` on an owned byte vector. The codec
/// right-aligns the bytes in an eight-byte buffer and reads it as a
/// big-endian number; an input of more than eight bytes is refused.
#[verifier::external_body]
pub(crate) fn top_decode_u64(bytes: Vec<u8>) -> (r: Option<u64>)
    ensures
        bytes@.len() <= 8 ==> r == Some(be_value(bytes@) as u64),
        bytes@.len() > 8 ==> r.is_none(),
{
    u64::top_decode(bytes).ok()
}

/// Appends the nested encoding of a 64-bit number to `dest`.
///
/// Calls the codec's `u64::dep_encode`, which writes the number's eight
/// big-endian bytes and never fails.
#[verifier::external_body]
pub(crate) fn nested_encode_u64(value: u64, dest: &mut Vec<u8>)
    ensures
        final(dest)@ == old(dest)@ + be_bytes(value as nat, 8),
{
    let _ = value.dep_encode(dest);
}

/// Appends the nested encoding of a byte string to `dest`.
///
/// Calls the codec's `dep_encode` for byte slices, which writes the length as
/// four big-endian bytes and then the bytes themselves, and never fails. The
/// codec narrows the length to 32 bits, so longer inputs are left out.
#[verifier::external_body]
pub(crate) fn nested_encode_bytes(bytes: &[u8], dest: &mut Vec<u8>)
    requires
        bytes@.len() <= u32::MAX,
    ensures
        final(dest)@ == old(dest)@ + be_bytes(bytes@.len(), 4) + bytes@,
{
    let _ = bytes.dep_encode(dest);
}

/// Appending one byte to a numeral multiplies its value by 256 and adds the byte.
pub proof fn lemma_be_value_push(bytes: Seq<u8>, b: u8)
    ensures
        be_value(bytes.push(b)) == be_value(bytes) * 256 + b as nat,
{
    assert(bytes.push(b).drop_last() =~= bytes);
}

/// The number of values that fit on `width` bytes.
pub open spec fn capacity(width: nat) -> nat
    decreases width,
{
    if width == 0 {
        1
    } else {
        256 * capacity((width - 1) as nat)
    }
}

/// A numeral of `width` bytes has `width` bytes.
pub proof fn lemma_be_bytes_len(value: nat, width: nat)
    ensures
        be_bytes(value, width).len() == width,
    decreases width,
{
    if width > 0 {
        lemma_be_bytes_len(value / 256, (width - 1) as nat);
    }
}

/// Reading what was written gives the number back, as long as the number
/// fits on the bytes that it was written on.
pub proof fn lemma_be_value_of_be_bytes(value: nat, width: nat)
    requires
        value < capacity(width),
    ensures
        be_value(be_bytes(value, width)) == value,
    decreases width,
{
    if width > 0 {
        let rest = be_bytes(value / 256, (width - 1) as nat);
        lemma_be_value_of_be_bytes(value / 256, (width - 1) as nat);
        lemma_be_value_push(rest, (value % 256) as u8);
    }
}

/// Numbers that fit on `width` bytes and are written alike are the same number.
pub proof fn lemma_be_bytes_injective(a: nat, b: nat, width: nat)
    requires
        a < capacity(width),
        b < capacity(width),
        be_bytes(a, width) == be_bytes(b, width),
    ensures
        a == b,
{
    lemma_be_value_of_be_bytes(a, width);
    lemma_be_value_of_be_bytes(b, width);
}

/// Every 64-bit number fits on eight bytes.
pub proof fn lemma_u64_fits_eight_bytes(value: u64)
    ensures
        value < capacity(8),
{
    reveal_with_fuel(capacity, 9);
}

/// Reads a whole byte string as a big-endian amount. Amounts are held on
/// 128 bits: a numeral that denotes more is read as the largest amount.
pub fn decode_amount(bytes: &[u8]) -> (r: u128)
    ensures
        r as nat == if be_value(bytes@) <= u128::MAX {
            be_value(bytes@)
        } else {
            u128::MAX as nat
        },
{
    let mut acc: u128 = 0;
    let mut i: usize = 0;
    while i < bytes.len()
        invariant
            i <= bytes@.len(),
            acc as nat == if be_value(bytes@.subrange(0, i as int)) <= u128::MAX {
                be_value(bytes@.subrange(0, i as int))
            } else {
                u128::MAX as nat
            },
        decreases bytes@.len() - i,
    {
        let b: u8 = bytes[i];
        proof {
            lemma_be_value_push(bytes@.subrange(0, i as int), b);
            assert(bytes@.subrange(0, i as int).push(b) =~= bytes@.subrange(0, i + 1));
        }
        let ghost before = be_value(bytes@.subrange(0, i as int));
        let ghost after = be_value(bytes@.subrange(0, i + 1));
        assert(after == before * 256 + b as nat);
        if acc > (u128::MAX - b as u128) / 256 {
            assert(after > u128::MAX) by {
                if before <= u128::MAX {
                    assert(acc == before);
                    assert(acc >= (u128::MAX - b as u128) / 256 + 1);
                    assert(acc * 256 >= ((u128::MAX - b as u128) / 256 + 1) * 256);
                }
            }
            acc = u128::MAX;
        } else {
            assert(before == acc);
            assert(acc * 256 + b <= u128::MAX);
            acc = acc * 256 + b as u128;
        }
        i += 1;
    }
    assert(bytes@.subrange(0, bytes@.len() as int) =~= bytes@);
    acc
}

} // verus!
