//! Addresses of accounts on the ledger.

use vstd::prelude::*;

verus! {

/// The address of an account: 32 bytes.
pub type Pubkey = [u8; 32];

/// The address that consists of the 32 bytes `bytes`.
pub open spec fn pubkey_of(bytes: Seq<u8>) -> Pubkey {
    choose|key: Pubkey| key@ == bytes
}

/// The address whose first `n` bytes are those of `bytes`, the others zero.
spec fn filled(bytes: Seq<u8>, n: nat) -> Pubkey
    decreases n,
{
    if n == 0 {
        vstd::array::spec_array_fill_for_copy_type::<u8, 32>(0u8)
    } else {
        vstd::array::spec_array_update(filled(bytes, (n - 1) as nat), n - 1, bytes[n - 1])
    }
}

proof fn lemma_filled(bytes: Seq<u8>, n: nat)
    requires
        n <= 32,
        bytes.len() == 32,
    ensures
        forall|j: int| 0 <= j < n ==> filled(bytes, n)@[j] == bytes[j],
    decreases n,
{
    if n > 0 {
        lemma_filled(bytes, (n - 1) as nat);
    }
}

/// Any 32 bytes are the bytes of exactly one address.
pub proof fn lemma_pubkey_of(bytes: Seq<u8>)
    requires
        bytes.len() == 32,
    ensures
        pubkey_of(bytes)@ == bytes,
        forall|key: Pubkey| key@ == bytes ==> key == pubkey_of(bytes),
{
    lemma_filled(bytes, 32);
    assert(filled(bytes, 32)@ =~= bytes);
    assert forall|key: Pubkey| key@ == bytes implies key == pubkey_of(bytes) by {
        assert(key =~= pubkey_of(bytes));
    }
}

/// Whether two addresses are the same.
pub fn pubkey_eq(a: &Pubkey, b: &Pubkey) -> (eq: bool)
    ensures
        eq <==> *a == *b,
{
    let mut i: usize = 0;
    while i < 32
        invariant
            0 <= i <= 32,
            forall|j: int| 0 <= j < i ==> a[j] == b[j],
        decreases 32 - i,
    {
        if a[i] != b[i] {
            return false;
        }
        i = i + 1;
    }
    assert(*a =~= *b);
    true
}

} // verus!
