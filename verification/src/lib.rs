//! Funding workflows against a token-sale contract.
//!
//! The sale takes wrapped ether and gives out tokens. A client that funds
//! it, claims from it or waits for it has to count amounts exactly, to read
//! the ledger consistently, and to take its steps in an order that the
//! ledger accepts. This library holds the decisions of such a client, and
//! none of its input or output.
//!
//! A workflow here is a value. It names one effect at a time for its driver
//! to perform (a read, a transaction, a wait, a line for the operator), and
//! takes the outcome to name the next: see [`exchange`]. What the driver
//! does with an effect is its own affair; what the workflow decides for each
//! outcome is stated and proved here.
//!
//! - [`word`], [`text`], [`amount`], [`cli`]: amounts, their text forms, and
//!   what holds of reading and showing them ([`amount_laws`]).
//! - [`ledger`], [`clock`], [`phase`]: the values that go to the ledger and
//!   come back.
//! - [`snapshot`]: several reads at one block height.
//! - [`conditioning`]: wrapping and approving before a funding
//!   ([`conditioning_laws`]).
//! - [`funding`]: the funding transaction under its two policies.
//! - [`wait`], [`finish_wait`]: waiting for an event or a deadline.
//! - [`funding_flow`], [`claim_flow`], [`info_query`], [`script`]: the
//!   workflows, and [`report`], what they report.
//! - [`ico`], [`erc20`]: the commands that begin them.
//! - [`contracts`]: where the contracts live.

pub mod amount;
pub mod amount_laws;
pub mod claim_flow;
pub mod cli;
pub mod clock;
pub mod conditioning;
pub mod conditioning_laws;
pub mod contracts;
pub mod erc20;
pub mod exchange;
pub mod finish_wait;
pub mod funding;
pub mod funding_flow;
pub mod ico;
pub mod info_query;
pub mod ledger;
pub mod phase;
pub mod report;
pub mod script;
pub mod snapshot;
pub mod text;
pub mod wait;
pub mod word;
