//! Create: opening a contest. The instruction checks the contest's
//! parameters and the four accounts, and says what is to be allocated and
//! what the new record holds.

use crate::account::{Account, AccountView};
use crate::encoding::{le_value, read_pubkey, read_u16, read_u64};
use crate::error::{HateFunError, InstructionError};
use crate::instructions::{address_matches, is_address};
use crate::state::pda::{
    bucket_seed_list, bucket_seeds, derive_addresses, derive_bucket_address, derived_addresses,
    escrow_a_seeds, escrow_b_seeds, main_bucket_seeds, program_address, tagged_seed_list,
    with_bump, DerivedAddresses,
};
use crate::pubkey::{pubkey_eq, pubkey_of, Pubkey};
use crate::state::Bucket;
use crate::system_program::{
    create_account, create_account_instruction, Instruction, InstructionView,
};
use crate::sysvars::{current_epoch, RentExemption};
use crate::verification::{validate_fees, validate_min_increase};
use vstd::prelude::*;

verus! {

/// The smallest baseline a contest can start with.
pub const MINIMUM_INITIAL_SWAP: u64 = 100_000;

/// The number of bytes in the payload of a create instruction.
pub const CREATE_BUCKET_DATA_LEN: usize = 142;

/// The parameters of a new contest, as the payload of a create instruction
/// carries them.
#[derive(Debug, Clone, Copy, PartialEq, Eq)]
pub struct CreateBucketArgs {
    /// The first competing address.
    pub address_a: Pubkey,
    /// The second competing address.
    pub address_b: Pubkey,
    /// The address that receives the creator's fee.
    pub creator_address: Pubkey,
    /// The creator's fee in basis points.
    pub creator_fee_bps: u16,
    /// The claimer's fee in basis points.
    pub claimer_fee_bps: u16,
    /// The amount that the first flush must exceed.
    pub initial_last_swap: u64,
    /// By how much a flush must exceed the last one, in basis points.
    pub min_increase_bps: u16,
    /// The seed that tells this contest from the creator's others.
    pub seed: Pubkey,
}

impl CreateBucketArgs {
    /// The parameters that the first 142 bytes of `data` carry: three
    /// addresses, two fees, the baseline, the minimum increase and the seed.
    pub open spec fn decode(data: Seq<u8>) -> CreateBucketArgs {
        CreateBucketArgs {
            address_a: pubkey_of(data.subrange(0, 32)),
            address_b: pubkey_of(data.subrange(32, 64)),
            creator_address: pubkey_of(data.subrange(64, 96)),
            creator_fee_bps: le_value(data.subrange(96, 98)) as u16,
            claimer_fee_bps: le_value(data.subrange(98, 100)) as u16,
            initial_last_swap: le_value(data.subrange(100, 108)) as u64,
            min_increase_bps: le_value(data.subrange(108, 110)) as u16,
            seed: pubkey_of(data.subrange(110, 142)),
        }
    }

    /// The first rule that the parameters break, if any.
    pub open spec fn violation(self) -> Option<HateFunError> {
        if self.creator_fee_bps + self.claimer_fee_bps > 2_000 {
            Some(HateFunError::FeesTooHigh)
        } else if self.creator_address == self.address_a || self.creator_address
            == self.address_b {
            Some(HateFunError::CreatorMustBeDifferent)
        } else if self.min_increase_bps < 100 || self.min_increase_bps > 5_000 {
            Some(HateFunError::InvalidMinimumIncrease)
        } else if self.initial_last_swap < 100_000 {
            Some(HateFunError::InitialSwapTooLow)
        } else {
            None
        }
    }

    /// The record of the contest that these parameters open in `epoch`, at an
    /// address with the salt `bump`: the first competing address holds the lead.
    pub open spec fn record(self, epoch: u64, bump: u8) -> Bucket {
        Bucket {
            address_a: self.address_a,
            address_b: self.address_b,
            creator_address: self.creator_address,
            current_target: self.address_a,
            last_swap: self.initial_last_swap,
            creation_epoch: epoch,
            last_flip_epoch: epoch,
            creator_fee_bps: self.creator_fee_bps,
            claimer_fee_bps: self.claimer_fee_bps,
            min_increase_bps: self.min_increase_bps,
            bump,
        }
    }

    /// Reads the parameters from the payload `data`. Fails where the payload
    /// has fewer than 142 bytes.
    pub fn parse(data: &[u8]) -> (r: Result<CreateBucketArgs, InstructionError>)
        ensures
            match r {
                Ok(args) => data.len() >= 142 && args == CreateBucketArgs::decode(data@),
                Err(e) => data.len() < 142 && e == InstructionError::InvalidInstructionData,
            },
    {
        if data.len() < CREATE_BUCKET_DATA_LEN {
            return Err(InstructionError::InvalidInstructionData);
        }
        Ok(
            CreateBucketArgs {
                address_a: read_pubkey(data, 0)?,
                address_b: read_pubkey(data, 32)?,
                creator_address: read_pubkey(data, 64)?,
                creator_fee_bps: read_u16(data, 96)?,
                claimer_fee_bps: read_u16(data, 98)?,
                initial_last_swap: read_u64(data, 100)?,
                min_increase_bps: read_u16(data, 108)?,
                seed: read_pubkey(data, 110)?,
            },
        )
    }

    /// Checks the parameters against the contest's rules, in their order.
    pub fn validate(&self) -> (r: Result<(), HateFunError>)
        ensures
            match r {
                Ok(()) => self.violation() is None,
                Err(e) => self.violation() == Some(e),
            },
    {
        if !validate_fees(self.creator_fee_bps, self.claimer_fee_bps) {
            return Err(HateFunError::FeesTooHigh);
        }
        if pubkey_eq(&self.creator_address, &self.address_a) || pubkey_eq(
            &self.creator_address,
            &self.address_b,
        ) {
            return Err(HateFunError::CreatorMustBeDifferent);
        }
        if !validate_min_increase(self.min_increase_bps) {
            return Err(HateFunError::InvalidMinimumIncrease);
        }
        if self.initial_last_swap < MINIMUM_INITIAL_SWAP {
            return Err(HateFunError::InitialSwapTooLow);
        }
        Ok(())
    }
}

/// What a successful create instruction asks for: four accounts to be
/// allocated, in this order, and the record to be written to the first.
#[derive(Debug, PartialEq, Eq)]
pub struct Creation {
    /// Allocates the record's account.
    pub bucket: Instruction,
    /// Allocates the pot.
    pub main_bucket: Instruction,
    /// Allocates the first escrow.
    pub escrow_a: Instruction,
    /// Allocates the second escrow.
    pub escrow_b: Instruction,
    /// The record of the new contest.
    pub record: Bucket,
}

/// What a `Creation` holds, with its instructions as sequences.
pub struct CreationView {
    pub bucket: InstructionView,
    pub main_bucket: InstructionView,
    pub escrow_a: InstructionView,
    pub escrow_b: InstructionView,
    pub record: Bucket,
}

impl View for Creation {
    type V = CreationView;

    open spec fn view(&self) -> CreationView {
        CreationView {
            bucket: self.bucket@,
            main_bucket: self.main_bucket@,
            escrow_a: self.escrow_a@,
            escrow_b: self.escrow_b@,
            record: self.record,
        }
    }
}

/// What a create instruction with the payload `data` on the accounts `payer,
/// record, pot, escrow A, escrow B, system program` asks for, given the
/// address `bucket_address` derived for the record, the addresses `derived`
/// for the others, and the epoch and the minimum-persistence balances that
/// the ledger reports, if any.
pub open spec fn create_spec(
    program_id: Pubkey,
    accounts: Seq<AccountView>,
    data: Seq<u8>,
    bucket_address: Option<(Pubkey, u8)>,
    derived: DerivedAddresses,
    clock: Option<u64>,
    rent: Option<RentExemption>,
) -> Result<CreationView, InstructionError> {
    let args = CreateBucketArgs::decode(data);
    if data.len() < 142 {
        Err(InstructionError::InvalidInstructionData)
    } else if args.violation() is Some {
        Err(InstructionError::Custom(args.violation()->0))
    } else if accounts.len() != 6 {
        Err(InstructionError::NotEnoughAccountKeys)
    } else if !accounts[0].is_signer {
        Err(InstructionError::MissingRequiredSignature)
    } else if !is_address(bucket_address, accounts[1].key) {
        Err(InstructionError::InvalidSeeds)
    } else if !is_address(derived.main_bucket, accounts[2].key) {
        Err(InstructionError::InvalidSeeds)
    } else if !is_address(derived.escrow_a, accounts[3].key) {
        Err(InstructionError::InvalidSeeds)
    } else if !is_address(derived.escrow_b, accounts[4].key) {
        Err(InstructionError::InvalidSeeds)
    } else if clock is None || rent is None {
        Err(InstructionError::UnsupportedSysvar)
    } else {
        let payer = accounts[0].key;
        let bucket = accounts[1].key;
        let rent = rent->0;
        Ok(
            CreationView {
                bucket: create_account_instruction(
                    payer,
                    bucket,
                    rent.record,
                    159,
                    program_id,
                    bucket_seeds(args.creator_address, args.seed@).push(
                        seq![salt_of(bucket_address)],
                    ),
                ),
                main_bucket: create_account_instruction(
                    payer,
                    accounts[2].key,
                    rent.empty,
                    0,
                    program_id,
                    main_bucket_seeds(bucket).push(seq![salt_of(derived.main_bucket)]),
                ),
                escrow_a: create_account_instruction(
                    payer,
                    accounts[3].key,
                    rent.empty,
                    0,
                    program_id,
                    escrow_a_seeds(bucket).push(seq![salt_of(derived.escrow_a)]),
                ),
                escrow_b: create_account_instruction(
                    payer,
                    accounts[4].key,
                    rent.empty,
                    0,
                    program_id,
                    escrow_b_seeds(bucket).push(seq![salt_of(derived.escrow_b)]),
                ),
                record: args.record(clock->0, salt_of(bucket_address)),
            },
        )
    }
}

/// Whether the answer `r` of a create instruction is what `expected` says.
pub open spec fn created(
    expected: Result<CreationView, InstructionError>,
    r: Result<Creation, InstructionError>,
) -> bool {
    match r {
        Ok(creation) => expected == Ok::<CreationView, InstructionError>(creation@),
        Err(e) => expected == Err::<CreationView, InstructionError>(e),
    }
}

/// The salt of a derived address; 0 where none was derived.
pub open spec fn salt_of(derived: Option<(Pubkey, u8)>) -> u8 {
    match derived {
        Some((_, bump)) => bump,
        None => 0,
    }
}

/// The salt of a derived address; 0 where none was derived.
fn bump_of(derived: &Option<(Pubkey, u8)>) -> (bump: u8)
    ensures
        bump == salt_of(*derived),
{
    match derived {
        Some((_, bump)) => *bump,
        None => 0,
    }
}

/// Checks a create instruction and says what is to be allocated and
/// written. `bucket_address` is the address derived for the record from the
/// payload's creator and seed, `derived` holds the addresses derived for the
/// record at the second place of `accounts`, `clock` the current epoch and
/// `rent` the minimum-persistence balances. The record of a contest that
/// opens this way meets the invariants of a record.
pub fn create_bucket(
    program_id: &Pubkey,
    accounts: &Vec<Account>,
    data: &[u8],
    bucket_address: &Option<(Pubkey, u8)>,
    derived: &DerivedAddresses,
    clock: Option<u64>,
    rent: Option<RentExemption>,
) -> (r: Result<Creation, InstructionError>)
    ensures
        created(
            create_spec(
                *program_id,
                accounts.deep_view(),
                data@,
                *bucket_address,
                *derived,
                clock,
                rent,
            ),
            r,
        ),
        r matches Ok(creation) ==> creation.record.well_formed(),
{
    let args = CreateBucketArgs::parse(data)?;
    match args.validate() {
        Ok(()) => {},
        Err(e) => {
            return Err(InstructionError::Custom(e));
        },
    }
    if accounts.len() != 6 {
        return Err(InstructionError::NotEnoughAccountKeys);
    }
    if !accounts[0].is_signer {
        return Err(InstructionError::MissingRequiredSignature);
    }
    if !address_matches(bucket_address, &accounts[1].key) {
        return Err(InstructionError::InvalidSeeds);
    }
    if !address_matches(&derived.main_bucket, &accounts[2].key) {
        return Err(InstructionError::InvalidSeeds);
    }
    if !address_matches(&derived.escrow_a, &accounts[3].key) {
        return Err(InstructionError::InvalidSeeds);
    }
    if !address_matches(&derived.escrow_b, &accounts[4].key) {
        return Err(InstructionError::InvalidSeeds);
    }
    let epoch = match clock {
        Some(epoch) => epoch,
        None => {
            return Err(InstructionError::UnsupportedSysvar);
        },
    };
    let rent = match rent {
        Some(rent) => rent,
        None => {
            return Err(InstructionError::UnsupportedSysvar);
        },
    };
    let bucket_bump = bump_of(bucket_address);
    let payer = &accounts[0];
    let bucket_key = &accounts[1].key;
    let bucket = create_account(
        payer,
        &accounts[1],
        rent.record,
        Bucket::SIZE as u64,
        program_id,
        with_bump(bucket_seed_list(&args.creator_address, args.seed.as_slice()), bucket_bump),
    );
    let main_bucket = create_account(
        payer,
        &accounts[2],
        rent.empty,
        0,
        program_id,
        with_bump(
            tagged_seed_list(Bucket::MAIN_SEED_PREFIX.as_slice(), bucket_key),
            bump_of(&derived.main_bucket),
        ),
    );
    let escrow_a = create_account(
        payer,
        &accounts[3],
        rent.empty,
        0,
        program_id,
        with_bump(
            tagged_seed_list(Bucket::ESCROW_A_SEED_PREFIX.as_slice(), bucket_key),
            bump_of(&derived.escrow_a),
        ),
    );
    let escrow_b = create_account(
        payer,
        &accounts[4],
        rent.empty,
        0,
        program_id,
        with_bump(
            tagged_seed_list(Bucket::ESCROW_B_SEED_PREFIX.as_slice(), bucket_key),
            bump_of(&derived.escrow_b),
        ),
    );
    let record = Bucket {
        address_a: args.address_a,
        address_b: args.address_b,
        creator_address: args.creator_address,
        current_target: args.address_a,
        last_swap: args.initial_last_swap,
        creation_epoch: epoch,
        last_flip_epoch: epoch,
        creator_fee_bps: args.creator_fee_bps,
        claimer_fee_bps: args.claimer_fee_bps,
        min_increase_bps: args.min_increase_bps,
        bump: bucket_bump,
    };
    Ok(Creation { bucket, main_bucket, escrow_a, escrow_b, record })
}

/// Checks a create instruction for the accounts `payer, record, pot, escrow
/// A, escrow B, system program`: derives the four addresses, reads the
/// ledger's clock, and says what is to be allocated and written.
pub fn process_create_bucket(
    program_id: &Pubkey,
    accounts: &Vec<Account>,
    data: &[u8],
    rent: Option<RentExemption>,
) -> (r: Result<Creation, InstructionError>)
    ensures
        exists|clock: Option<u64>|
            created(
                #[trigger] create_spec(
                    *program_id,
                    accounts.deep_view(),
                    data@,
                    program_address(
                        bucket_seeds(
                            CreateBucketArgs::decode(data@).creator_address,
                            CreateBucketArgs::decode(data@).seed@,
                        ),
                        *program_id,
                    ),
                    derived_addresses(accounts[1].key, *program_id),
                    clock,
                    rent,
                ),
                r,
            ),
        r matches Ok(creation) ==> creation.record.well_formed(),
{
    let ghost named_bucket = program_address(
        bucket_seeds(
            CreateBucketArgs::decode(data@).creator_address,
            CreateBucketArgs::decode(data@).seed@,
        ),
        *program_id,
    );
    let ghost named = derived_addresses(accounts[1].key, *program_id);
    let args = match CreateBucketArgs::parse(data) {
        Ok(args) => args,
        Err(e) => {
            assert(created(
                create_spec(
                    *program_id,
                    accounts.deep_view(),
                    data@,
                    named_bucket,
                    named,
                    None,
                    rent,
                ),
                Err(e),
            ));
            return Err(e);
        },
    };
    if accounts.len() != 6 {
        // No record is named, so no address can be derived; the parameters
        // are still checked first.
        let none = DerivedAddresses { main_bucket: None, escrow_a: None, escrow_b: None };
        let r = create_bucket(program_id, accounts, data, &None, &none, None, rent);
        assert(created(
            create_spec(
                *program_id,
                accounts.deep_view(),
                data@,
                named_bucket,
                named,
                None,
                rent,
            ),
            r,
        ));
        return r;
    }
    let bucket_address = derive_bucket_address(
        &args.creator_address,
        args.seed.as_slice(),
        program_id,
    );
    let derived = derive_addresses(&accounts[1].key, program_id);
    let clock = current_epoch();
    create_bucket(program_id, accounts, data, &bucket_address, &derived, clock, rent)
}

} // verus!
