//! The token commands: balances, transfers and allowances of the token on
//! sale and of wrapped ether, and the wrapping and unwrapping of ether.

use vstd::prelude::*;

use crate::amount::CurrencyKind;
use crate::cli::{Eth, Scm};
use crate::exchange::Effect;
use crate::ledger::{Address, Query, Read, Transaction, Write};
use crate::script::{Script, Shown};

verus! {

/// A command on the token on sale.
#[allow(inconsistent_fields)]
#[derive(Clone, Copy, Debug, PartialEq, Eq)]
pub enum ScmCommand {
    /// Show the balance of an account; of the caller's own by default.
    Balance { address: Option<Address> },
    /// Move tokens to a recipient; from the caller's own account by default.
    Transfer { recipient: Address, funds: Scm, owner: Option<Address> },
    /// Show what a spender may move of an owner's tokens.
    Allowance { owner: Address, spender: Address },
    /// Let a spender move tokens of the caller's, in place of any earlier
    /// allowance.
    Approve { spender: Address, value: Scm },
}

/// A command on wrapped ether.
#[allow(inconsistent_fields)]
#[derive(Clone, Copy, Debug, PartialEq, Eq)]
pub enum WethCommand {
    /// Show the balance of an account; of the caller's own by default.
    Balance { address: Option<Address> },
    /// Move tokens to a recipient; from the caller's own account by default.
    Transfer { recipient: Address, funds: Eth, owner: Option<Address> },
    /// Show what a spender may move of an owner's tokens.
    Allowance { owner: Address, spender: Address },
    /// Let a spender move tokens of the caller's, in place of any earlier
    /// allowance.
    Approve { spender: Address, value: Eth },
    /// Wrap ether.
    Deposit { amount: Eth },
    /// Unwrap ether.
    Withdraw { amount: Eth },
}

/// The address given, or the caller's own.
pub open spec fn or_own(address: Option<Address>, account: Address) -> Address {
    match address {
        Some(a) => a,
        None => account,
    }
}

/// The read of a token balance.
pub open spec fn balance_query(token: Address, owner: Address) -> Query {
    Query { to: token, read: Read::BalanceOf { owner }, block: None }
}

/// A transaction of the caller's on a token.
pub open spec fn token_transaction(account: Address, token: Address, write: Write) -> Transaction {
    Transaction { from: account, to: token, write }
}

impl ScmCommand {
    /// What the command does for an account on the token: the transaction it
    /// submits, if any, and the number it reads and shows after it, if any.
    pub open spec fn script(self, account: Address, token: Address) -> Script {
        match self {
            ScmCommand::Balance { address } => Script::begin(
                None,
                Some(balance_query(token, or_own(address, account))),
                CurrencyKind::Scm,
                Shown::TokenBalance,
            ),
            ScmCommand::Transfer { recipient, funds, owner } => Script::begin(
                Some(
                    token_transaction(
                        account,
                        token,
                        Write::TransferFrom {
                            owner: or_own(owner, account),
                            recipient,
                            amount: funds.0,
                        },
                    ),
                ),
                Some(balance_query(token, account)),
                CurrencyKind::Scm,
                Shown::TokenBalance,
            ),
            ScmCommand::Allowance { owner, spender } => Script::begin(
                None,
                Some(Query { to: token, read: Read::Allowance { owner, spender }, block: None }),
                CurrencyKind::Scm,
                Shown::Allowance,
            ),
            ScmCommand::Approve { spender, value } => Script::begin(
                Some(token_transaction(account, token, Write::Approve { spender, amount: value.0 })),
                None,
                CurrencyKind::Scm,
                Shown::TokenBalance,
            ),
        }
    }

    /// Begins the command for an account on the token, and names its first
    /// effect.
    pub fn invoke(&self, account: Address, token: Address) -> (r: (Script, Effect))
        ensures
            r.0 == self.script(account, token),
            r.1 == r.0.effect(),
    {
        match *self {
            ScmCommand::Balance { address } => Script::start(
                None,
                Some(Query::latest(token, Read::BalanceOf { owner: own_or(address, account) })),
                CurrencyKind::Scm,
                Shown::TokenBalance,
            ),
            ScmCommand::Transfer { recipient, funds, owner } => Script::start(
                Some(
                    Transaction {
                        from: account,
                        to: token,
                        write: Write::TransferFrom {
                            owner: own_or(owner, account),
                            recipient,
                            amount: funds.0,
                        },
                    },
                ),
                Some(Query::latest(token, Read::BalanceOf { owner: account })),
                CurrencyKind::Scm,
                Shown::TokenBalance,
            ),
            ScmCommand::Allowance { owner, spender } => Script::start(
                None,
                Some(Query::latest(token, Read::Allowance { owner, spender })),
                CurrencyKind::Scm,
                Shown::Allowance,
            ),
            ScmCommand::Approve { spender, value } => Script::start(
                Some(
                    Transaction {
                        from: account,
                        to: token,
                        write: Write::Approve { spender, amount: value.0 },
                    },
                ),
                None,
                CurrencyKind::Scm,
                Shown::TokenBalance,
            ),
        }
    }
}

impl WethCommand {
    /// What the command does for an account on the token: the transaction it
    /// submits, if any, and the number it reads and shows after it, if any.
    pub open spec fn script(self, account: Address, token: Address) -> Script {
        match self {
            WethCommand::Balance { address } => Script::begin(
                None,
                Some(balance_query(token, or_own(address, account))),
                CurrencyKind::Eth,
                Shown::TokenBalance,
            ),
            WethCommand::Transfer { recipient, funds, owner } => Script::begin(
                Some(
                    token_transaction(
                        account,
                        token,
                        Write::TransferFrom {
                            owner: or_own(owner, account),
                            recipient,
                            amount: funds.0,
                        },
                    ),
                ),
                Some(balance_query(token, account)),
                CurrencyKind::Eth,
                Shown::TokenBalance,
            ),
            WethCommand::Allowance { owner, spender } => Script::begin(
                None,
                Some(Query { to: token, read: Read::Allowance { owner, spender }, block: None }),
                CurrencyKind::Eth,
                Shown::Allowance,
            ),
            WethCommand::Approve { spender, value } => Script::begin(
                Some(token_transaction(account, token, Write::Approve { spender, amount: value.0 })),
                None,
                CurrencyKind::Eth,
                Shown::TokenBalance,
            ),
            WethCommand::Deposit { amount } => Script::begin(
                Some(token_transaction(account, token, Write::Deposit { value: amount.0 })),
                Some(balance_query(token, account)),
                CurrencyKind::Eth,
                Shown::TokenBalance,
            ),
            WethCommand::Withdraw { amount } => Script::begin(
                Some(token_transaction(account, token, Write::Withdraw { amount: amount.0 })),
                Some(balance_query(token, account)),
                CurrencyKind::Eth,
                Shown::TokenBalance,
            ),
        }
    }

    /// Begins the command for an account on the token, and names its first
    /// effect.
    pub fn invoke(&self, account: Address, token: Address) -> (r: (Script, Effect))
        ensures
            r.0 == self.script(account, token),
            r.1 == r.0.effect(),
    {
        match *self {
            WethCommand::Balance { address } => Script::start(
                None,
                Some(Query::latest(token, Read::BalanceOf { owner: own_or(address, account) })),
                CurrencyKind::Eth,
                Shown::TokenBalance,
            ),
            WethCommand::Transfer { recipient, funds, owner } => Script::start(
                Some(
                    Transaction {
                        from: account,
                        to: token,
                        write: Write::TransferFrom {
                            owner: own_or(owner, account),
                            recipient,
                            amount: funds.0,
                        },
                    },
                ),
                Some(Query::latest(token, Read::BalanceOf { owner: account })),
                CurrencyKind::Eth,
                Shown::TokenBalance,
            ),
            WethCommand::Allowance { owner, spender } => Script::start(
                None,
                Some(Query::latest(token, Read::Allowance { owner, spender })),
                CurrencyKind::Eth,
                Shown::Allowance,
            ),
            WethCommand::Approve { spender, value } => Script::start(
                Some(
                    Transaction {
                        from: account,
                        to: token,
                        write: Write::Approve { spender, amount: value.0 },
                    },
                ),
                None,
                CurrencyKind::Eth,
                Shown::TokenBalance,
            ),
            WethCommand::Deposit { amount } => Script::start(
                Some(
                    Transaction { from: account, to: token, write: Write::Deposit { value: amount.0 } },
                ),
                Some(Query::latest(token, Read::BalanceOf { owner: account })),
                CurrencyKind::Eth,
                Shown::TokenBalance,
            ),
            WethCommand::Withdraw { amount } => Script::start(
                Some(
                    Transaction {
                        from: account,
                        to: token,
                        write: Write::Withdraw { amount: amount.0 },
                    },
                ),
                Some(Query::latest(token, Read::BalanceOf { owner: account })),
                CurrencyKind::Eth,
                Shown::TokenBalance,
            ),
        }
    }
}

/// The address given, or the caller's own.
pub fn own_or(address: Option<Address>, account: Address) -> (a: Address)
    ensures
        a == or_own(address, account),
{
    match address {
        Some(a) => a,
        None => account,
    }
}

} // verus!
