//! Accounts as an instruction sees them, and the balances they hold.

use crate::pubkey::{pubkey_eq, Pubkey};
use vstd::prelude::*;

verus! {

/// One account handed to an instruction. The same account may be handed over
/// in several places of an instruction's list; a balance that is given to one
/// of them is given to all that share its address.
#[derive(Debug, PartialEq, Eq)]
pub struct Account {
    /// The account's address.
    pub key: Pubkey,
    /// The program that owns the account.
    pub owner: Pubkey,
    /// The account's balance.
    pub lamports: u64,
    /// Whether the account signed the transaction.
    pub is_signer: bool,
    /// The bytes the account stores.
    pub data: Vec<u8>,
}

/// What an `Account` holds, with its stored bytes as a sequence.
pub struct AccountView {
    pub key: Pubkey,
    pub owner: Pubkey,
    pub lamports: u64,
    pub is_signer: bool,
    pub data: Seq<u8>,
}

impl View for Account {
    type V = AccountView;

    open spec fn view(&self) -> AccountView {
        AccountView {
            key: self.key,
            owner: self.owner,
            lamports: self.lamports,
            is_signer: self.is_signer,
            data: self.data@,
        }
    }
}

impl DeepView for Account {
    type V = AccountView;

    open spec fn deep_view(&self) -> AccountView {
        self@
    }
}

/// The balances of `accounts`, place by place.
pub open spec fn balances_of(accounts: Seq<AccountView>) -> Seq<u64> {
    Seq::new(accounts.len(), |i: int| accounts[i].lamports)
}

/// `accounts` with the balance at each place replaced by the one that
/// `balances` holds for it.
pub open spec fn with_balances(accounts: Seq<AccountView>, balances: Seq<u64>) -> Seq<AccountView> {
    Seq::new(
        accounts.len(),
        |i: int| AccountView { lamports: balances[i], ..accounts[i] },
    )
}

/// `balances` after the account at `key` was given the balance `amount`: every
/// place that holds this account changes, no other does.
pub open spec fn assigned(
    accounts: Seq<AccountView>,
    balances: Seq<u64>,
    key: Pubkey,
    amount: u64,
) -> Seq<u64> {
    Seq::new(
        balances.len(),
        |i: int|
            if accounts[i].key == key {
                amount
            } else {
                balances[i]
            },
    )
}

/// `balances` after `amount` was added to the account at place `place`, or
/// `None` where its balance would leave `u64`.
pub open spec fn credited(
    accounts: Seq<AccountView>,
    balances: Seq<u64>,
    place: int,
    amount: u64,
) -> Option<Seq<u64>> {
    if balances[place] + amount <= u64::MAX {
        Some(assigned(accounts, balances, accounts[place].key, (balances[place] + amount) as u64))
    } else {
        None
    }
}

/// `balances` after `amount` was taken from the account at place `place`, or
/// `None` where it holds less.
pub open spec fn debited(
    accounts: Seq<AccountView>,
    balances: Seq<u64>,
    place: int,
    amount: u64,
) -> Option<Seq<u64>> {
    if balances[place] >= amount {
        Some(assigned(accounts, balances, accounts[place].key, (balances[place] - amount) as u64))
    } else {
        None
    }
}

/// `balances` after `amount` was moved from the account at place `from` to
/// the account at place `to`, or `None` where the first holds less or the
/// balance of the second would leave `u64`.
pub open spec fn moved(
    accounts: Seq<AccountView>,
    balances: Seq<u64>,
    from: int,
    to: int,
    amount: u64,
) -> Option<Seq<u64>> {
    match debited(accounts, balances, from, amount) {
        Some(taken) => credited(accounts, taken, to, amount),
        None => None,
    }
}

/// `accounts` with the stored bytes at place `place` replaced by `data`.
pub open spec fn with_data(accounts: Seq<AccountView>, place: int, data: Seq<u8>) -> Seq<
    AccountView,
> {
    accounts.update(place, AccountView { data, ..accounts[place] })
}

/// Whether no two places of `accounts` hold the same account.
pub open spec fn all_distinct(accounts: Seq<AccountView>) -> bool {
    forall|i: int, j: int|
        0 <= i < j < accounts.len() ==> (#[trigger] accounts[i]).key != (#[trigger] accounts[j]).key
}

/// Whether `balances` holds one balance for each account: places of
/// `accounts` that hold the same account hold the same balance.
pub open spec fn agree(accounts: Seq<AccountView>, balances: Seq<u64>) -> bool {
    forall|i: int, j: int|
        0 <= i < accounts.len() && 0 <= j < accounts.len() && accounts[i].key == accounts[j].key
            ==> #[trigger] balances[i] == #[trigger] balances[j]
}

/// Giving an account a balance keeps one balance for each account.
pub proof fn lemma_assigned_agree(
    accounts: Seq<AccountView>,
    balances: Seq<u64>,
    key: Pubkey,
    amount: u64,
)
    requires
        balances.len() == accounts.len(),
        agree(accounts, balances),
    ensures
        assigned(accounts, balances, key, amount).len() == accounts.len(),
        agree(accounts, assigned(accounts, balances, key, amount)),
{
    let after = assigned(accounts, balances, key, amount);
    assert forall|i: int, j: int|
        0 <= i < accounts.len() && 0 <= j < accounts.len() && accounts[i].key
            == accounts[j].key implies #[trigger] after[i] == #[trigger] after[j] by {
        assert(balances[i] == balances[j]);
    }
}

/// Moving an amount between two accounts keeps one balance for each account.
pub proof fn lemma_moved_agree(
    accounts: Seq<AccountView>,
    balances: Seq<u64>,
    from: int,
    to: int,
    amount: u64,
)
    requires
        balances.len() == accounts.len(),
        agree(accounts, balances),
        moved(accounts, balances, from, to, amount) is Some,
    ensures
        moved(accounts, balances, from, to, amount)->0.len() == accounts.len(),
        agree(accounts, moved(accounts, balances, from, to, amount)->0),
{
    let taken = debited(accounts, balances, from, amount)->0;
    lemma_assigned_agree(
        accounts,
        balances,
        accounts[from].key,
        (balances[from] - amount) as u64,
    );
    lemma_assigned_agree(accounts, taken, accounts[to].key, (taken[to] + amount) as u64);
}

/// Copies the balances of `accounts` into a working list.
pub(crate) fn read_balances(accounts: &Vec<Account>) -> (balances: Vec<u64>)
    ensures
        balances@ == balances_of(accounts.deep_view()),
{
    let mut balances: Vec<u64> = Vec::new();
    let mut i: usize = 0;
    while i < accounts.len()
        invariant
            0 <= i <= accounts.len(),
            balances.len() == i,
            forall|j: int| 0 <= j < i ==> balances[j] == accounts[j].lamports,
        decreases accounts.len() - i,
    {
        balances.push(accounts[i].lamports);
        i = i + 1;
    }
    assert(balances@ =~= balances_of(accounts.deep_view()));
    balances
}

/// Gives the account at `key` the balance `amount` in the working list.
pub(crate) fn assign_balance(
    accounts: &Vec<Account>,
    balances: &mut Vec<u64>,
    key: &Pubkey,
    amount: u64,
)
    requires
        old(balances).len() == accounts.len(),
    ensures
        final(balances)@ == assigned(accounts.deep_view(), old(balances)@, *key, amount),
{
    let mut i: usize = 0;
    while i < accounts.len()
        invariant
            0 <= i <= accounts.len(),
            balances.len() == accounts.len(),
            old(balances).len() == accounts.len(),
            forall|j: int|
                0 <= j < i ==> balances[j] == if accounts[j].key == *key {
                    amount
                } else {
                    old(balances)[j]
                },
            forall|j: int| i <= j < balances.len() ==> balances[j] == old(balances)[j],
        decreases accounts.len() - i,
    {
        if pubkey_eq(&accounts[i].key, key) {
            balances[i] = amount;
        }
        i = i + 1;
    }
    assert(balances@ =~= assigned(accounts.deep_view(), old(balances)@, *key, amount));
}

/// Adds `amount` to the account at place `place` in the working list, unless
/// its balance would leave `u64`.
pub(crate) fn credit(
    accounts: &Vec<Account>,
    balances: &mut Vec<u64>,
    place: usize,
    amount: u64,
) -> (done: bool)
    requires
        place < accounts.len(),
        old(balances).len() == accounts.len(),
    ensures
        match credited(accounts.deep_view(), old(balances)@, place as int, amount) {
            Some(after) => done && final(balances)@ == after,
            None => !done && final(balances)@ == old(balances)@,
        },
{
    match balances[place].checked_add(amount) {
        Some(sum) => {
            assign_balance(accounts, balances, &accounts[place].key, sum);
            true
        },
        None => false,
    }
}

/// Takes `amount` from the account at place `place` in the working list,
/// unless it holds less.
pub(crate) fn debit(
    accounts: &Vec<Account>,
    balances: &mut Vec<u64>,
    place: usize,
    amount: u64,
) -> (done: bool)
    requires
        place < accounts.len(),
        old(balances).len() == accounts.len(),
    ensures
        match debited(accounts.deep_view(), old(balances)@, place as int, amount) {
            Some(after) => done && final(balances)@ == after,
            None => !done && final(balances)@ == old(balances)@,
        },
{
    match balances[place].checked_sub(amount) {
        Some(rest) => {
            assign_balance(accounts, balances, &accounts[place].key, rest);
            true
        },
        None => false,
    }
}

/// Writes the balances of the working list back to `accounts`.
pub(crate) fn store_balances(accounts: &mut Vec<Account>, balances: &Vec<u64>)
    requires
        balances.len() == old(accounts).len(),
    ensures
        final(accounts).deep_view() == with_balances(old(accounts).deep_view(), balances@),
{
    let mut i: usize = 0;
    while i < accounts.len()
        invariant
            0 <= i <= accounts.len(),
            accounts.len() == old(accounts).len(),
            balances.len() == accounts.len(),
            forall|j: int|
                0 <= j < i ==> accounts[j]@ == with_balances(
                    old(accounts).deep_view(),
                    balances@,
                )[j],
            forall|j: int| i <= j < accounts.len() ==> accounts[j] == old(accounts)[j],
        decreases accounts.len() - i,
    {
        accounts[i].lamports = balances[i];
        i = i + 1;
    }
    assert(accounts.deep_view() =~= with_balances(old(accounts).deep_view(), balances@));
}

} // verus!
