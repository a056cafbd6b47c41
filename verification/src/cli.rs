//! Amounts as they are given on the command line.

use std::str::FromStr;
use vstd::prelude::*;

use crate::amount::{formatted, parsed, AmountValue, CurrencyKind, ParseError};
use crate::word::Word256;

verus! {

/// An amount of some currency, as an argument.
pub trait Currency {
    /// The magnitude in base units.
    spec fn base_units(&self) -> nat;

    /// The magnitude as a ledger word.
    fn as_inner(&self) -> (w: Word256)
        ensures
            w@ == self.base_units(),
    ;
}

/// An amount of ether, in wei.
///
/// Read from forms such as `1eth` or `100gwei`; a bare number counts in wei.
#[derive(Clone, Copy, Debug, PartialEq, Eq, Hash, Structural)]
pub struct Eth(pub Word256);

/// An amount of the token on sale, in its smallest unit.
///
/// Read from forms such as `1scm` or `100asc`; a bare number counts in the
/// smallest unit.
#[derive(Clone, Copy, Debug, PartialEq, Eq, Hash, Structural)]
pub struct Scm(pub Word256);

impl View for Eth {
    type V = nat;

    open spec fn view(&self) -> nat {
        self.0@
    }
}

impl View for Scm {
    type V = nat;

    open spec fn view(&self) -> nat {
        self.0@
    }
}

impl Eth {
    /// The amount that a ledger word stands for.
    pub fn new(inner: Word256) -> (a: Eth)
        ensures
            a == Eth(inner),
    {
        Eth(inner)
    }

    /// Reads an amount of ether.
    pub fn from_str(s: &str) -> (r: Result<Eth, ParseError>)
        ensures
            match parsed(CurrencyKind::Eth, s@) {
                Ok(units) => r matches Ok(a) && a@ == units,
                Err(kind) => r matches Err(e) && e.kind == kind && e.input@ == s@,
            },
    {
        match AmountValue::parse(CurrencyKind::Eth, s) {
            Ok(a) => Ok(Eth(a.as_base_units())),
            Err(e) => Err(e),
        }
    }

    /// Shows the amount in whole ether, with eighteen decimal places.
    pub fn to_string(&self) -> (s: String)
        ensures
            s@ == formatted(CurrencyKind::Eth, self@),
    {
        AmountValue::new(CurrencyKind::Eth, self.0).format()
    }
}

impl Scm {
    /// The amount that a ledger word stands for.
    pub fn new(inner: Word256) -> (a: Scm)
        ensures
            a == Scm(inner),
    {
        Scm(inner)
    }

    /// Reads an amount of the token.
    pub fn from_str(s: &str) -> (r: Result<Scm, ParseError>)
        ensures
            match parsed(CurrencyKind::Scm, s@) {
                Ok(units) => r matches Ok(a) && a@ == units,
                Err(kind) => r matches Err(e) && e.kind == kind && e.input@ == s@,
            },
    {
        match AmountValue::parse(CurrencyKind::Scm, s) {
            Ok(a) => Ok(Scm(a.as_base_units())),
            Err(e) => Err(e),
        }
    }

    /// Shows the amount in whole tokens, with eighteen decimal places.
    pub fn to_string(&self) -> (s: String)
        ensures
            s@ == formatted(CurrencyKind::Scm, self@),
    {
        AmountValue::new(CurrencyKind::Scm, self.0).format()
    }
}

impl Currency for Eth {
    open spec fn base_units(&self) -> nat {
        self.0@
    }

    fn as_inner(&self) -> (w: Word256)
        ensures
            w == self.0,
    {
        self.0
    }
}

impl Currency for Scm {
    open spec fn base_units(&self) -> nat {
        self.0@
    }

    fn as_inner(&self) -> (w: Word256)
        ensures
            w == self.0,
    {
        self.0
    }
}

impl FromStr for Eth {
    type Err = ParseError;

    fn from_str(s: &str) -> (r: Result<Eth, ParseError>)
        ensures
            match parsed(CurrencyKind::Eth, s@) {
                Ok(units) => r matches Ok(a) && a@ == units,
                Err(kind) => r matches Err(e) && e.kind == kind && e.input@ == s@,
            },
    {
        Eth::from_str(s)
    }
}

impl FromStr for Scm {
    type Err = ParseError;

    fn from_str(s: &str) -> (r: Result<Scm, ParseError>)
        ensures
            match parsed(CurrencyKind::Scm, s@) {
                Ok(units) => r matches Ok(a) && a@ == units,
                Err(kind) => r matches Err(e) && e.kind == kind && e.input@ == s@,
            },
    {
        Scm::from_str(s)
    }
}

} // verus!
