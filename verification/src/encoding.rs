//! Little-endian fields in flat byte buffers.

use crate::error::InstructionError;
use crate::pubkey::{lemma_pubkey_of, pubkey_of, Pubkey};
use vstd::prelude::*;

verus! {

/// The number that `bytes` spell in little-endian order: the first byte counts
/// least.
pub open spec fn le_value(bytes: Seq<u8>) -> nat
    decreases bytes.len(),
{
    if bytes.len() == 0 {
        0
    } else {
        bytes[0] as nat + 256 * le_value(bytes.skip(1))
    }
}

/// The lowest `len` bytes of `value` in little-endian order: they spell
/// `value` where it is below `256^len`.
pub open spec fn le_bytes(value: nat, len: nat) -> Seq<u8>
    decreases len,
{
    if len == 0 {
        Seq::empty()
    } else {
        seq![(value % 256) as u8] + le_bytes(value / 256, (len - 1) as nat)
    }
}

/// `256^len`.
pub open spec fn le_bound(len: nat) -> nat
    decreases len,
{
    if len == 0 {
        1
    } else {
        256 * le_bound((len - 1) as nat)
    }
}

/// What `len` bytes spell is below `256^len`.
pub proof fn lemma_le_value_bound(bytes: Seq<u8>)
    ensures
        le_value(bytes) < le_bound(bytes.len()),
    decreases bytes.len(),
{
    if bytes.len() > 0 {
        lemma_le_value_bound(bytes.skip(1));
    }
}

/// Spelling a number takes exactly as many bytes as asked for.
pub proof fn lemma_le_bytes_len(value: nat, len: nat)
    ensures
        le_bytes(value, len).len() == len,
    decreases len,
{
    if len > 0 {
        lemma_le_bytes_len(value / 256, (len - 1) as nat);
    }
}

/// Reading back what was spelled gives the number again.
pub proof fn lemma_le_value_of_le_bytes(value: nat, len: nat)
    requires
        value < le_bound(len),
    ensures
        le_value(le_bytes(value, len)) == value,
    decreases len,
{
    if len > 0 {
        let rest = le_bytes(value / 256, (len - 1) as nat);
        lemma_le_value_of_le_bytes(value / 256, (len - 1) as nat);
        lemma_le_bytes_len(value / 256, (len - 1) as nat);
        assert(le_bytes(value, len).skip(1) =~= rest);
    }
}

/// Spelling what was read gives the bytes again.
pub proof fn lemma_le_bytes_of_le_value(bytes: Seq<u8>)
    ensures
        le_bytes(le_value(bytes), bytes.len()) == bytes,
    decreases bytes.len(),
{
    if bytes.len() > 0 {
        lemma_le_bytes_of_le_value(bytes.skip(1));
        let rest = le_value(bytes.skip(1));
        assert((bytes[0] as nat + 256 * rest) / 256 == rest);
        assert((bytes[0] as nat + 256 * rest) % 256 == bytes[0] as nat);
        assert(le_bytes(le_value(bytes), bytes.len()) =~= bytes);
    } else {
        assert(le_bytes(le_value(bytes), bytes.len()) =~= bytes);
    }
}

/// The first powers of 256.
pub proof fn lemma_le_bound_values()
    ensures
        le_bound(0) == 1,
        le_bound(1) == 0x100,
        le_bound(2) == 0x1_0000,
        le_bound(3) == 0x100_0000,
        le_bound(4) == 0x1_0000_0000,
        le_bound(5) == 0x100_0000_0000,
        le_bound(6) == 0x1_0000_0000_0000,
        le_bound(7) == 0x100_0000_0000_0000,
        le_bound(8) == 0x1_0000_0000_0000_0000,
{
    reveal_with_fuel(le_bound, 10);
}

/// Reads the `len` bytes of `data` from `offset` on as one little-endian number.
fn read_le(data: &[u8], offset: usize, len: usize) -> (value: u64)
    requires
        len <= 8,
        offset + len <= data.len(),
    ensures
        value == le_value(data@.subrange(offset as int, offset + len)),
{
    let mut value: u64 = 0;
    let mut i: usize = len;
    proof {
        lemma_le_bound_values();
        assert(data@.subrange(offset + len, offset + len) =~= Seq::<u8>::empty());
    }
    while i > 0
        invariant
            0 <= i <= len <= 8,
            offset + len <= data.len(),
            value == le_value(data@.subrange(offset + i, offset + len)),
            value < le_bound((len - i) as nat),
        decreases i,
    {
        proof {
            lemma_le_bound_values();
            let field = data@.subrange(offset + i - 1, offset + len);
            assert(field.skip(1) =~= data@.subrange(offset + i, offset + len));
            assert(le_bound((len - i + 1) as nat) == 256 * le_bound((len - i) as nat));
        }
        i = i - 1;
        value = value * 256 + data[offset + i] as u64;
    }
    value
}

/// The 64-bit number that the eight bytes of `data` from `offset` on spell.
pub(crate) fn u64_at(data: &[u8], offset: usize) -> (value: u64)
    requires
        offset + 8 <= data.len(),
    ensures
        value == le_value(data@.subrange(offset as int, offset + 8)),
{
    read_le(data, offset, 8)
}

/// The 16-bit number that the two bytes of `data` from `offset` on spell.
pub(crate) fn u16_at(data: &[u8], offset: usize) -> (value: u16)
    requires
        offset + 2 <= data.len(),
    ensures
        value == le_value(data@.subrange(offset as int, offset + 2)),
{
    let value = read_le(data, offset, 2);
    proof {
        lemma_le_value_bound(data@.subrange(offset as int, offset + 2));
        lemma_le_bound_values();
    }
    value as u16
}

/// The address that the 32 bytes of `data` from `offset` on hold.
pub(crate) fn pubkey_at(data: &[u8], offset: usize) -> (key: Pubkey)
    requires
        offset + 32 <= data.len(),
    ensures
        key@ == data@.subrange(offset as int, offset + 32),
        key == pubkey_of(data@.subrange(offset as int, offset + 32)),
{
    let mut key: Pubkey = [0u8;32];
    let mut i: usize = 0;
    while i < 32
        invariant
            0 <= i <= 32,
            offset + 32 <= data.len(),
            forall|j: int| 0 <= j < i ==> key[j] == data[offset + j],
        decreases 32 - i,
    {
        key[i] = data[offset + i];
        i = i + 1;
    }
    assert(key@ =~= data@.subrange(offset as int, offset + 32));
    proof {
        lemma_pubkey_of(data@.subrange(offset as int, offset + 32));
    }
    key
}

/// Reads the eight bytes of `data` from `offset` on as a little-endian number.
/// Fails where `data` ends before the eighth byte.
pub fn read_u64(data: &[u8], offset: usize) -> (r: Result<u64, InstructionError>)
    ensures
        match r {
            Ok(value) => offset + 8 <= data.len() && value == le_value(
                data@.subrange(offset as int, offset + 8),
            ),
            Err(e) => offset + 8 > data.len() && e == InstructionError::InvalidInstructionData,
        },
{
    if data.len() < 8 || offset > data.len() - 8 {
        return Err(InstructionError::InvalidInstructionData);
    }
    Ok(u64_at(data, offset))
}

/// Reads the two bytes of `data` from `offset` on as a little-endian number.
/// Fails where `data` ends before the second byte.
pub fn read_u16(data: &[u8], offset: usize) -> (r: Result<u16, InstructionError>)
    ensures
        match r {
            Ok(value) => offset + 2 <= data.len() && value == le_value(
                data@.subrange(offset as int, offset + 2),
            ),
            Err(e) => offset + 2 > data.len() && e == InstructionError::InvalidInstructionData,
        },
{
    if data.len() < 2 || offset > data.len() - 2 {
        return Err(InstructionError::InvalidInstructionData);
    }
    Ok(u16_at(data, offset))
}

/// Reads the 32 bytes of `data` from `offset` on as an address. Fails where
/// `data` ends before the last of them.
pub fn read_pubkey(data: &[u8], offset: usize) -> (r: Result<Pubkey, InstructionError>)
    ensures
        match r {
            Ok(key) => offset + 32 <= data.len() && key == pubkey_of(
                data@.subrange(offset as int, offset + 32),
            ),
            Err(e) => offset + 32 > data.len() && e == InstructionError::InvalidInstructionData,
        },
{
    if data.len() < 32 || offset > data.len() - 32 {
        return Err(InstructionError::InvalidInstructionData);
    }
    Ok(pubkey_at(data, offset))
}

/// Appends to `out` the `len` bytes that spell `value` in little-endian order.
pub fn write_le(out: &mut Vec<u8>, value: u64, len: usize)
    requires
        len <= 8,
    ensures
        final(out)@ == old(out)@ + le_bytes(value as nat, len as nat),
{
    let mut rest: u64 = value;
    let mut i: usize = 0;
    while i < len
        invariant
            0 <= i <= len,
            out@ + le_bytes(rest as nat, (len - i) as nat) == old(out)@ + le_bytes(
                value as nat,
                len as nat,
            ),
        decreases len - i,
    {
        let ghost before = out@;
        let ghost tail = le_bytes((rest / 256) as nat, (len - i - 1) as nat);
        out.push((rest % 256) as u8);
        proof {
            assert(le_bytes(rest as nat, (len - i) as nat) == seq![(rest % 256) as u8] + tail);
            assert(out@ + tail =~= before + (seq![(rest % 256) as u8] + tail));
        }
        rest = rest / 256;
        i = i + 1;
    }
    assert(out@ + Seq::<u8>::empty() =~= out@);
}

/// Appends the bytes of `bytes` to `out`.
pub fn write_bytes(out: &mut Vec<u8>, bytes: &[u8])
    ensures
        final(out)@ == old(out)@ + bytes@,
{
    let mut i: usize = 0;
    while i < bytes.len()
        invariant
            0 <= i <= bytes.len(),
            out@ == old(out)@ + bytes@.take(i as int),
        decreases bytes.len() - i,
    {
        out.push(bytes[i]);
        assert(out@ =~= old(out)@ + bytes@.take(i + 1));
        i = i + 1;
    }
    assert(bytes@.take(i as int) =~= bytes@);
}

} // verus!
