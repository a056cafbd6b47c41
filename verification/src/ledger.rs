//! What goes to the ledger and what comes back: addresses, read-only calls,
//! transactions and the values they yield.

use vstd::prelude::*;

use crate::word::Word256;

verus! {

/// The address of an account or of a contract.
#[derive(Clone, Copy, Debug, PartialEq, Eq, Hash)]
pub struct Address {
    /// The twenty bytes of the address, first byte first.
    pub bytes: [u8; 20],
}

/// The hash that names a submitted transaction.
#[derive(Clone, Copy, Debug, PartialEq, Eq, Hash)]
pub struct TxHash {
    /// The thirty-two bytes of the hash, first byte first.
    pub bytes: [u8; 32],
}

/// A read-only call: the method and its arguments.
#[derive(Clone, Copy, Debug, PartialEq, Eq)]
pub enum Read {
    /// The sale's phase code.
    State,
    /// What the sale can still take, in wei.
    LeftEth,
    /// What the sale can still give out, in the token's smallest unit.
    LeftScm,
    /// The address of the token on sale.
    ScmToken,
    /// The address of the wrapped-ether token that the sale is paid in.
    WethToken,
    /// When the sale closes, in seconds since the epoch.
    CloseTime,
    /// When the sale finishes, in seconds since the epoch.
    FinishTime,
    /// What a holder has paid into the sale, in wei.
    BalanceEth { holder: Address },
    /// What a holder has bought of the sale, in the token's smallest unit.
    BalanceScm { holder: Address },
    /// A token balance.
    BalanceOf { owner: Address },
    /// What a spender may move of an owner's tokens.
    Allowance { owner: Address, spender: Address },
}

/// A read-only call to a contract, at a block height or at the newest block.
#[derive(Clone, Copy, Debug, PartialEq, Eq)]
pub struct Query {
    /// The contract that is called.
    pub to: Address,
    /// The method and its arguments.
    pub read: Read,
    /// The height whose state is read; `None` for the newest block.
    pub block: Option<u64>,
}

/// A state-changing call: the method and its arguments.
#[derive(Clone, Copy, Debug, PartialEq, Eq)]
pub enum Write {
    /// Wraps ether: pays `value` into the wrapped-ether token.
    Deposit { value: Word256 },
    /// Unwraps ether.
    Withdraw { amount: Word256 },
    /// Lets a spender move up to `amount` of the sender's tokens, in place
    /// of any earlier allowance.
    Approve { spender: Address, amount: Word256 },
    /// Moves tokens from an owner to a recipient.
    TransferFrom { owner: Address, recipient: Address, amount: Word256 },
    /// Pays exactly `amount` into the sale, or reverts.
    Fund { amount: Word256 },
    /// Pays into the sale what it can still take, up to `limit`.
    FundAvailable { limit: Word256 },
    /// Takes out the tokens bought.
    Claim,
}

/// A transaction: who signs it, which contract it goes to, and the call.
#[derive(Clone, Copy, Debug, PartialEq, Eq)]
pub struct Transaction {
    /// The account that signs and pays.
    pub from: Address,
    /// The contract that is called.
    pub to: Address,
    /// The method and its arguments.
    pub write: Write,
}

/// What a read-only call yields.
#[derive(Clone, Copy, Debug, PartialEq, Eq)]
pub enum Value {
    /// A 256-bit number: a balance, an allowance, a timestamp.
    Word(Word256),
    /// An address.
    Address(Address),
    /// A small code, such as the sale's phase.
    Code(u8),
}

/// What is known of a mined transaction.
#[derive(Clone, Copy, Debug, PartialEq, Eq)]
pub struct TransactionReceipt {
    /// The transaction's hash.
    pub tx: TxHash,
    /// The amount that the transaction moved, as the ledger recorded it.
    pub amount: Word256,
}

/// How an operation on the ledger failed.
#[derive(Clone, Copy, Debug, PartialEq, Eq, Hash, Structural)]
pub enum Failure {
    /// The node could not be reached, or its answer could not be used.
    Remote,
    /// The contract refused the call.
    Reverted,
    /// The node does not serve the height that was asked for.
    HeightUnavailable,
}

/// The kinds of event that a workflow waits for.
#[derive(Clone, Copy, Debug, PartialEq, Eq, Hash, Structural)]
pub enum EventKind {
    /// The sale has closed.
    IcoClosed,
}

impl Query {
    /// A call at the newest block.
    pub fn latest(to: Address, read: Read) -> (q: Query)
        ensures
            q == (Query { to, read, block: None }),
    {
        Query { to, read, block: None }
    }

    /// A call at a given height.
    pub fn at(to: Address, read: Read, height: u64) -> (q: Query)
        ensures
            q == (Query { to, read, block: Some(height) }),
    {
        Query { to, read, block: Some(height) }
    }
}

} // verus!
