//! Batch transfers of a token on a Soroban host.
//!
//! A batch is a list of `(recipient, amount)` pairs that one sender pays out
//! of one token. [`Distributor::distribute`] reads the list, rejects it
//! before anything moves if an entry is malformed or an amount is not
//! strictly positive, asks the token contract for each transfer in list
//! order, and publishes what it did. Given values of one host, every way of
//! failing is a [`DistributeError`], on which the calling contract aborts,
//! so that the host undoes the part of the batch that went through. Beside
//! its result it returns, for proofs only, the record of the transfers that
//! it asked of the token contract.
//!
//! The library does not authenticate the sender: the host can only do that
//! by ending the invocation, so the calling contract asks for it, with
//! `sender.require_auth()`, before it hands the batch over.
//!
//! - [`batch`] plans a batch without touching the host.
//! - [`distributor`] runs it against the host.
//! - [`ledger`] models the token's books and proves what a batch does to them.
//! - [`host`] holds what is taken on trust from the SDK.

pub mod batch;
pub mod distributor;
pub mod host;
pub mod ledger;

pub use crate::batch::{DistributeError, Mode, Notice, Order, Refusal};
pub use crate::distributor::Distributor;
