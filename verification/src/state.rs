//! The contest record: its fields, its invariants and its byte layout.

use crate::account::{Account, AccountView};
use crate::encoding::{
    le_bytes, le_value, lemma_le_bound_values, lemma_le_bytes_len, lemma_le_bytes_of_le_value,
    lemma_le_value_bound, lemma_le_value_of_le_bytes, pubkey_at, u16_at, u64_at, write_bytes,
    write_le,
};
use crate::error::InstructionError;
use crate::pubkey::{lemma_pubkey_of, pubkey_of, Pubkey};
use vstd::prelude::*;

pub mod pda;

verus! {

/// The record of one contest: what was fixed at its creation, and how it stands.
#[derive(Debug, Clone, Copy, PartialEq, Eq)]
pub struct Bucket {
    /// The first competing address.
    pub address_a: Pubkey,
    /// The second competing address.
    pub address_b: Pubkey,
    /// The address that receives the creator's fee.
    pub creator_address: Pubkey,
    /// The address that holds the lead: one of the two competing addresses.
    pub current_target: Pubkey,
    /// The amount that won the last flush; the next threshold builds on it.
    pub last_swap: u64,
    /// The epoch in which the contest was created.
    pub creation_epoch: u64,
    /// The epoch in which the lead last changed.
    pub last_flip_epoch: u64,
    /// The creator's fee in basis points.
    pub creator_fee_bps: u16,
    /// The claimer's fee in basis points.
    pub claimer_fee_bps: u16,
    /// By how much a flush must exceed the last one, in basis points.
    pub min_increase_bps: u16,
    /// The salt of the record's derived address.
    pub bump: u8,
}

impl Bucket {
    /// The number of bytes a record takes in its account.
    pub const SIZE: usize = 159;

    /// Tag of the record's derived address: `bucket`.
    pub const SEED_PREFIX: [u8; 6] = [98, 117, 99, 107, 101, 116];

    /// Tag of the pot's derived address: `main`.
    pub const MAIN_SEED_PREFIX: [u8; 4] = [109, 97, 105, 110];

    /// Tag of the derived address of the first escrow: `escrow_a`.
    pub const ESCROW_A_SEED_PREFIX: [u8; 8] = [101, 115, 99, 114, 111, 119, 95, 97];

    /// Tag of the derived address of the second escrow: `escrow_b`.
    pub const ESCROW_B_SEED_PREFIX: [u8; 8] = [101, 115, 99, 114, 111, 119, 95, 98];

    /// The invariants that hold of every record at rest.
    pub open spec fn well_formed(self) -> bool {
        &&& self.current_target == self.address_a || self.current_target == self.address_b
        &&& self.creator_fee_bps + self.claimer_fee_bps <= 2_000
        &&& 100 <= self.min_increase_bps <= 5_000
        &&& self.last_flip_epoch >= self.creation_epoch
        &&& self.creator_address != self.address_a
        &&& self.creator_address != self.address_b
        &&& self.last_swap >= 100_000
    }

    /// The record as it lies in its account: the four addresses, then the three
    /// 64-bit and the three 16-bit numbers in little-endian order, then the salt.
    pub open spec fn bytes(self) -> Seq<u8> {
        self.address_a@ + self.address_b@ + self.creator_address@ + self.current_target@
            + le_bytes(self.last_swap as nat, 8) + le_bytes(self.creation_epoch as nat, 8)
            + le_bytes(self.last_flip_epoch as nat, 8) + le_bytes(self.creator_fee_bps as nat, 2)
            + le_bytes(self.claimer_fee_bps as nat, 2) + le_bytes(self.min_increase_bps as nat, 2)
            + seq![self.bump]
    }

    /// Where each field lies among the 159 bytes of a record.
    pub proof fn lemma_layout(self)
        ensures
            self.bytes().len() == 159,
            self.bytes().subrange(0, 32) == self.address_a@,
            self.bytes().subrange(32, 64) == self.address_b@,
            self.bytes().subrange(64, 96) == self.creator_address@,
            self.bytes().subrange(96, 128) == self.current_target@,
            self.bytes().subrange(128, 136) == le_bytes(self.last_swap as nat, 8),
            self.bytes().subrange(136, 144) == le_bytes(self.creation_epoch as nat, 8),
            self.bytes().subrange(144, 152) == le_bytes(self.last_flip_epoch as nat, 8),
            self.bytes().subrange(152, 154) == le_bytes(self.creator_fee_bps as nat, 2),
            self.bytes().subrange(154, 156) == le_bytes(self.claimer_fee_bps as nat, 2),
            self.bytes().subrange(156, 158) == le_bytes(self.min_increase_bps as nat, 2),
            self.bytes()[158] == self.bump,
    {
        lemma_le_bytes_len(self.last_swap as nat, 8);
        lemma_le_bytes_len(self.creation_epoch as nat, 8);
        lemma_le_bytes_len(self.last_flip_epoch as nat, 8);
        lemma_le_bytes_len(self.creator_fee_bps as nat, 2);
        lemma_le_bytes_len(self.claimer_fee_bps as nat, 2);
        lemma_le_bytes_len(self.min_increase_bps as nat, 2);
        assert(self.bytes().subrange(0, 32) =~= self.address_a@);
        assert(self.bytes().subrange(32, 64) =~= self.address_b@);
        assert(self.bytes().subrange(64, 96) =~= self.creator_address@);
        assert(self.bytes().subrange(96, 128) =~= self.current_target@);
        assert(self.bytes().subrange(128, 136) =~= le_bytes(self.last_swap as nat, 8));
        assert(self.bytes().subrange(136, 144) =~= le_bytes(self.creation_epoch as nat, 8));
        assert(self.bytes().subrange(144, 152) =~= le_bytes(self.last_flip_epoch as nat, 8));
        assert(self.bytes().subrange(152, 154) =~= le_bytes(self.creator_fee_bps as nat, 2));
        assert(self.bytes().subrange(154, 156) =~= le_bytes(self.claimer_fee_bps as nat, 2));
        assert(self.bytes().subrange(156, 158) =~= le_bytes(self.min_increase_bps as nat, 2));
    }

    /// The record that the first 159 bytes of `data` hold.
    pub open spec fn decode(data: Seq<u8>) -> Bucket {
        Bucket {
            address_a: pubkey_of(data.subrange(0, 32)),
            address_b: pubkey_of(data.subrange(32, 64)),
            creator_address: pubkey_of(data.subrange(64, 96)),
            current_target: pubkey_of(data.subrange(96, 128)),
            last_swap: le_value(data.subrange(128, 136)) as u64,
            creation_epoch: le_value(data.subrange(136, 144)) as u64,
            last_flip_epoch: le_value(data.subrange(144, 152)) as u64,
            creator_fee_bps: le_value(data.subrange(152, 154)) as u16,
            claimer_fee_bps: le_value(data.subrange(154, 156)) as u16,
            min_increase_bps: le_value(data.subrange(156, 158)) as u16,
            bump: data[158],
        }
    }

    /// Reading a record back from its bytes, whatever follows them, gives the
    /// record again.
    pub proof fn lemma_decode_of_bytes(self, tail: Seq<u8>)
        ensures
            Bucket::decode(self.bytes() + tail) == self,
    {
        self.lemma_layout();
        lemma_le_bound_values();
        lemma_le_value_of_le_bytes(self.last_swap as nat, 8);
        lemma_le_value_of_le_bytes(self.creation_epoch as nat, 8);
        lemma_le_value_of_le_bytes(self.last_flip_epoch as nat, 8);
        lemma_le_value_of_le_bytes(self.creator_fee_bps as nat, 2);
        lemma_le_value_of_le_bytes(self.claimer_fee_bps as nat, 2);
        lemma_le_value_of_le_bytes(self.min_increase_bps as nat, 2);
        let data = self.bytes() + tail;
        assert(data.subrange(0, 32) =~= self.bytes().subrange(0, 32));
        assert(data.subrange(32, 64) =~= self.bytes().subrange(32, 64));
        assert(data.subrange(64, 96) =~= self.bytes().subrange(64, 96));
        assert(data.subrange(96, 128) =~= self.bytes().subrange(96, 128));
        assert(data.subrange(128, 136) =~= self.bytes().subrange(128, 136));
        assert(data.subrange(136, 144) =~= self.bytes().subrange(136, 144));
        assert(data.subrange(144, 152) =~= self.bytes().subrange(144, 152));
        assert(data.subrange(152, 154) =~= self.bytes().subrange(152, 154));
        assert(data.subrange(154, 156) =~= self.bytes().subrange(154, 156));
        assert(data.subrange(156, 158) =~= self.bytes().subrange(156, 158));
        lemma_pubkey_of(self.address_a@);
        lemma_pubkey_of(self.address_b@);
        lemma_pubkey_of(self.creator_address@);
        lemma_pubkey_of(self.current_target@);
    }

    /// The bytes of the record that was read from `data` are the first 159
    /// bytes of `data`.
    pub proof fn lemma_bytes_of_decode(data: Seq<u8>)
        requires
            data.len() >= 159,
        ensures
            Bucket::decode(data).bytes() == data.take(159),
    {
        lemma_pubkey_of(data.subrange(0, 32));
        lemma_pubkey_of(data.subrange(32, 64));
        lemma_pubkey_of(data.subrange(64, 96));
        lemma_pubkey_of(data.subrange(96, 128));
        lemma_le_bound_values();
        lemma_le_value_bound(data.subrange(128, 136));
        lemma_le_value_bound(data.subrange(136, 144));
        lemma_le_value_bound(data.subrange(144, 152));
        lemma_le_value_bound(data.subrange(152, 154));
        lemma_le_value_bound(data.subrange(154, 156));
        lemma_le_value_bound(data.subrange(156, 158));
        lemma_le_bytes_of_le_value(data.subrange(128, 136));
        lemma_le_bytes_of_le_value(data.subrange(136, 144));
        lemma_le_bytes_of_le_value(data.subrange(144, 152));
        lemma_le_bytes_of_le_value(data.subrange(152, 154));
        lemma_le_bytes_of_le_value(data.subrange(154, 156));
        lemma_le_bytes_of_le_value(data.subrange(156, 158));
        assert(Bucket::decode(data).bytes() =~= data.take(159));
    }

    /// Two records that lie in their accounts as the same bytes are the same record.
    pub proof fn lemma_bytes_determine_record(self, other: Bucket)
        requires
            self.bytes() == other.bytes(),
        ensures
            self == other,
    {
        self.lemma_decode_of_bytes(Seq::empty());
        other.lemma_decode_of_bytes(Seq::empty());
    }

    /// Reads the record that the first 159 bytes of `account` hold, without
    /// testing that there are as many.
    pub fn from_account_info_unchecked(account: &Account) -> (bucket: Bucket)
        requires
            account.data.len() >= Bucket::SIZE,
        ensures
            bucket == Bucket::decode(account.data@),
    {
        let data = account.data.as_slice();
        proof {
            lemma_le_bound_values();
            lemma_le_value_bound(data@.subrange(128, 136));
            lemma_le_value_bound(data@.subrange(136, 144));
            lemma_le_value_bound(data@.subrange(144, 152));
        }
        Bucket {
            address_a: pubkey_at(data, 0),
            address_b: pubkey_at(data, 32),
            creator_address: pubkey_at(data, 64),
            current_target: pubkey_at(data, 96),
            last_swap: u64_at(data, 128),
            creation_epoch: u64_at(data, 136),
            last_flip_epoch: u64_at(data, 144),
            creator_fee_bps: u16_at(data, 152),
            claimer_fee_bps: u16_at(data, 154),
            min_increase_bps: u16_at(data, 156),
            bump: data[158],
        }
    }

    /// Reads the record that `account` holds. Fails where the account stores
    /// fewer bytes than a record takes.
    pub fn from_account_info(account: &Account) -> (r: Result<Bucket, InstructionError>)
        ensures
            match r {
                Ok(bucket) => account.data.len() >= 159 && bucket == Bucket::decode(
                    account.data@,
                ),
                Err(e) => account.data.len() < 159 && e == InstructionError::AccountDataTooSmall,
            },
    {
        if account.data.len() < Bucket::SIZE {
            return Err(InstructionError::AccountDataTooSmall);
        }
        Ok(Bucket::from_account_info_unchecked(account))
    }

    /// The record as the 159 bytes that lie in its account.
    pub fn to_bytes(&self) -> (out: Vec<u8>)
        ensures
            out@ == self.bytes(),
    {
        let mut out: Vec<u8> = Vec::new();
        write_bytes(&mut out, self.address_a.as_slice());
        write_bytes(&mut out, self.address_b.as_slice());
        write_bytes(&mut out, self.creator_address.as_slice());
        write_bytes(&mut out, self.current_target.as_slice());
        write_le(&mut out, self.last_swap, 8);
        write_le(&mut out, self.creation_epoch, 8);
        write_le(&mut out, self.last_flip_epoch, 8);
        write_le(&mut out, self.creator_fee_bps as u64, 2);
        write_le(&mut out, self.claimer_fee_bps as u64, 2);
        write_le(&mut out, self.min_increase_bps as u64, 2);
        out.push(self.bump);
        assert(out@ =~= self.bytes());
        out
    }

    /// Writes the record over the first 159 bytes of `account`; what the
    /// account stores behind them stays.
    pub fn store(&self, account: &mut Account)
        requires
            old(account).data.len() >= Bucket::SIZE,
        ensures
            final(account)@ == (AccountView {
                data: self.bytes() + old(account).data@.skip(159),
                ..old(account)@
            }),
    {
        let mut data = self.to_bytes();
        let mut i: usize = Bucket::SIZE;
        proof {
            self.lemma_layout();
        }
        while i < account.data.len()
            invariant
                159 <= i <= account.data.len(),
                *account == *old(account),
                data@ == self.bytes() + account.data@.subrange(159, i as int),
            decreases account.data.len() - i,
        {
            data.push(account.data[i]);
            assert(data@ =~= self.bytes() + account.data@.subrange(159, i + 1));
            i = i + 1;
        }
        assert(account.data@.subrange(159, i as int) =~= account.data@.skip(159));
        account.data = data;
    }
}

} // verus!
