//! Where the contracts live.
//!
//! The operator may name a contract's address in an environment variable.
//! If the variable is not set, the address is the one that is known for
//! the network the node is on. An address that is set but cannot be read
//! is an error, not a reason to look further.

use vstd::prelude::*;
use vstd::string::StringExecFns;

use crate::exchange::ContractName;
use crate::ledger::Address;

verus! {

/// Why a contract's address could not be found.
#[derive(Clone, Copy, Debug, PartialEq, Eq, Hash, Structural)]
pub enum ResolveError {
    /// The operator's override is no address.
    InvalidOverride(ContractName),
    /// No address of the contract is known for the network.
    NoKnownInstance(ContractName),
}

/// The address that a text spells, as `H160::from_str` reads it; `None` for
/// a text that it refuses.
pub uninterp spec fn address_text(text: Seq<char>) -> Option<Address>;

/// `<H160 as FromStr>::from_str`: the address that the text spells.
#[verifier::external_body]
fn parse_address(text: &str) -> (r: Option<Address>)
    ensures
        r == address_text(text@),
{
    match <ethcontract::Address as std::str::FromStr>::from_str(text) {
        Ok(a) => Some(Address { bytes: a.0 }),
        Err(_) => None,
    }
}

/// The name of a contract, as it is shown.
pub open spec fn contract_label(name: ContractName) -> Seq<char> {
    match name {
        ContractName::Ico => "ICO"@,
        ContractName::Scm => "SCM"@,
        ContractName::Weth => "WETH"@,
    }
}

/// The environment variable that overrides a contract's address.
pub open spec fn override_variable_name(name: ContractName) -> Seq<char> {
    match name {
        ContractName::Ico => "ICO_ADDRESS"@,
        ContractName::Scm => "SCM_ADDRESS"@,
        ContractName::Weth => "WETH_ADDRESS"@,
    }
}

/// What an override settles: the address it names; nothing, if there is no
/// override; an error, if there is one that names no address.
///
/// `parsed` is `None` without an override, and else what the override was
/// read as.
pub open spec fn override_settles(name: ContractName, parsed: Option<Option<Address>>) -> Result<
    Option<Address>,
    ResolveError,
> {
    match parsed {
        None => Ok(None),
        Some(Some(address)) => Ok(Some(address)),
        Some(None) => Err(ResolveError::InvalidOverride(name)),
    }
}

/// What the network settles: the address known for it, or an error if none
/// is known.
pub open spec fn network_settles(name: ContractName, deployed: Option<Address>) -> Result<
    Address,
    ResolveError,
> {
    match deployed {
        Some(address) => Ok(address),
        None => Err(ResolveError::NoKnownInstance(name)),
    }
}

/// What the message of an error says.
pub open spec fn resolve_error_text(error: ResolveError) -> Seq<char> {
    match error {
        ResolveError::InvalidOverride(name) => "invalid "@ + override_variable_name(name),
        ResolveError::NoKnownInstance(name) => "there is no known instance of "@ + contract_label(
            name,
        ) + " on this network; you should specify "@ + contract_label(name)
            + " address manually with "@ + override_variable_name(name)
            + " environment variable"@,
    }
}

/// The environment variable that overrides a contract's address.
pub fn override_variable(name: ContractName) -> (s: &'static str)
    ensures
        s@ == override_variable_name(name),
{
    match name {
        ContractName::Ico => "ICO_ADDRESS",
        ContractName::Scm => "SCM_ADDRESS",
        ContractName::Weth => "WETH_ADDRESS",
    }
}

/// Decides what an override settles, from what it was read as.
pub fn settle_override(name: ContractName, parsed: Option<Option<Address>>) -> (r: Result<
    Option<Address>,
    ResolveError,
>)
    ensures
        r == override_settles(name, parsed),
{
    match parsed {
        None => Ok(None),
        Some(Some(address)) => Ok(Some(address)),
        Some(None) => Err(ResolveError::InvalidOverride(name)),
    }
}

/// Looks at the override of a contract's address: the value of its
/// environment variable, if that is set. `Ok(None)` says that the network
/// is to be asked.
pub fn resolve_override(name: ContractName, overridden: Option<&str>) -> (r: Result<
    Option<Address>,
    ResolveError,
>)
    ensures
        r == override_settles(
            name,
            match overridden {
                Some(text) => Some(address_text(text@)),
                None => None,
            },
        ),
{
    match overridden {
        Some(text) => settle_override(name, Some(parse_address(text))),
        None => settle_override(name, None),
    }
}

/// The address of a contract on the node's network, from what is known of
/// that network.
pub fn resolve_on_network(name: ContractName, deployed: Option<Address>) -> (r: Result<
    Address,
    ResolveError,
>)
    ensures
        r == network_settles(name, deployed),
{
    match deployed {
        Some(address) => Ok(address),
        None => Err(ResolveError::NoKnownInstance(name)),
    }
}

/// The address of the wrapped-ether token: the override if there is one,
/// else the address known for the network.
pub fn get_weth_address(overridden: Option<&str>, deployed: Option<Address>) -> (r: Result<
    Address,
    ResolveError,
>)
    ensures
        r == resolved_address(ContractName::Weth, overridden, deployed),
{
    get_address(ContractName::Weth, overridden, deployed)
}

/// The address of the token on sale: the override if there is one, else the
/// address known for the network.
pub fn get_scm_address(overridden: Option<&str>, deployed: Option<Address>) -> (r: Result<
    Address,
    ResolveError,
>)
    ensures
        r == resolved_address(ContractName::Scm, overridden, deployed),
{
    get_address(ContractName::Scm, overridden, deployed)
}

/// The address of the sale: the override if there is one, else the address
/// known for the network.
pub fn get_ico_address(overridden: Option<&str>, deployed: Option<Address>) -> (r: Result<
    Address,
    ResolveError,
>)
    ensures
        r == resolved_address(ContractName::Ico, overridden, deployed),
{
    get_address(ContractName::Ico, overridden, deployed)
}

/// The address of a contract, from the override if there is one and else
/// from the network.
pub open spec fn resolved_address(
    name: ContractName,
    overridden: Option<&str>,
    deployed: Option<Address>,
) -> Result<Address, ResolveError> {
    match overridden {
        Some(text) => match address_text(text@) {
            Some(address) => Ok(address),
            None => Err(ResolveError::InvalidOverride(name)),
        },
        None => network_settles(name, deployed),
    }
}

/// The address of a contract: the override if there is one, else the
/// address known for the network.
pub fn get_address(name: ContractName, overridden: Option<&str>, deployed: Option<Address>) -> (r:
    Result<Address, ResolveError>)
    ensures
        r == resolved_address(name, overridden, deployed),
{
    match resolve_override(name, overridden) {
        Err(e) => Err(e),
        Ok(Some(address)) => Ok(address),
        Ok(None) => resolve_on_network(name, deployed),
    }
}

impl ResolveError {
    /// The message for the operator.
    pub fn message(&self) -> (s: String)
        ensures
            s@ == resolve_error_text(*self),
    {
        match self {
            ResolveError::InvalidOverride(name) => String::from_str("invalid ").concat(
                override_variable(*name),
            ),
            ResolveError::NoKnownInstance(name) => {
                let label: &str = match name {
                    ContractName::Ico => "ICO",
                    ContractName::Scm => "SCM",
                    ContractName::Weth => "WETH",
                };
                let mut s: String = String::from_str("there is no known instance of ");
                s.append(label);
                s.append(" on this network; you should specify ");
                s.append(label);
                s.append(" address manually with ");
                s.append(override_variable(*name));
                s.append(" environment variable");
                s
            },
        }
    }
}

} // verus!
