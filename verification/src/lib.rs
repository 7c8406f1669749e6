//! Transactional rules of a two-sided escalating-commitment contest on an
//! account-based ledger: the arithmetic of thresholds and payouts, the contest
//! record and its byte layout, address derivation, and the five instructions.
//!
//! Two fixed addresses compete. Backers pay into the escrow of the side they
//! favour; an escrow that has reached the threshold can be flushed into the
//! pot, which passes the lead to the other side and raises the threshold.
//! Once a lead has stood for three epochs anyone may settle the contest, and
//! the pot is split between the creator, the claimer and the winner.
//!
//! The library works on copies of the accounts an instruction is handed
//! ([`account::Account`]). Each instruction says exactly what it does to
//! them, as a function of the accounts, of the addresses derived for the
//! contest and of what the ledger reports ([`instructions::flush_escrow::flush_spec`]
//! and its like). The functions named `process_*` derive the addresses and
//! read the ledger's clock themselves. What has to be done on the ledger
//! itself, allocating accounts and moving a deposit, is handed back to the
//! caller as instructions for the system program.

pub mod account;
pub mod encoding;
pub mod error;
pub mod instructions;
pub mod pubkey;
pub mod state;
pub mod system_program;
pub mod sysvars;
pub mod verification;
