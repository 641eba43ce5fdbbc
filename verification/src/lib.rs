//! An on-ledger wager/escrow core: a player funds a deposit, the program
//! decides a win/lose outcome from caller-supplied entropy, records the
//! outcome in a persisted 42-byte record, and later settles funds between
//! the player, a shared pool, and an administrator.
//!
//! The library is the decision kernel only. Everything the host ledger
//! runtime supplies — signature facts, account ownership, the rent-exemption
//! oracle's verdict, the clock value used as entropy — enters as plain
//! values, and every balance mutation is computed here and proved correct:
//! checked arithmetic throughout, fail-fast validation with a fixed check
//! order, and whole-operation atomicity (an error changes nothing).

pub mod error;
pub mod instruction;
pub mod oracle;
pub mod processor;
pub mod state;
