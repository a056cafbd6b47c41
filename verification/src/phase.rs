//! The phases of the sale.

use vstd::prelude::*;
use vstd::string::StringExecFns;

use crate::text::{decimal_digits, pad_decimal, zero_padded};

verus! {

/// The phase of the sale.
///
/// A code that this client does not know is kept as it is: a newer contract
/// must not stop an older client.
#[derive(Clone, Copy, Debug, PartialEq, Eq, Hash, Structural)]
pub enum SalePhase {
    /// The sale takes funds.
    Ongoing,
    /// The sale takes no more funds; tokens cannot be claimed yet.
    Closed,
    /// Tokens can be claimed.
    Finished,
    /// A phase that this client has no name for.
    Unknown(u8),
}

/// The phase that a code of the contract stands for.
pub open spec fn phase_of(code: u8) -> SalePhase {
    if code == 0 {
        SalePhase::Ongoing
    } else if code == 1 {
        SalePhase::Closed
    } else if code == 2 {
        SalePhase::Finished
    } else {
        SalePhase::Unknown(code)
    }
}

/// The name that a phase is shown under.
pub open spec fn phase_label(phase: SalePhase) -> Seq<char> {
    match phase {
        SalePhase::Ongoing => "Ongoing"@,
        SalePhase::Closed => "Closed"@,
        SalePhase::Finished => "Finished"@,
        SalePhase::Unknown(code) => "Unknown ("@ + decimal_digits(code as nat) + ")"@,
    }
}

impl SalePhase {
    /// Whether the phase is what some code decodes to: an unknown phase
    /// carries a code that has no name.
    pub open spec fn wf(&self) -> bool {
        match self {
            SalePhase::Unknown(code) => *code > 2,
            _ => true,
        }
    }

    /// The code that the contract reports for the phase.
    pub open spec fn code_spec(&self) -> u8 {
        match self {
            SalePhase::Ongoing => 0,
            SalePhase::Closed => 1,
            SalePhase::Finished => 2,
            SalePhase::Unknown(code) => *code,
        }
    }

    /// Decoding and encoding undo each other.
    pub proof fn lemma_code_round_trip(code: u8, phase: SalePhase)
        ensures
            phase_of(code).wf(),
            phase_of(code).code_spec() == code,
            phase.wf() ==> phase_of(phase.code_spec()) == phase,
    {
    }

    /// Decodes a phase code. Every code decodes.
    pub fn from_code(code: u8) -> (phase: SalePhase)
        ensures
            phase == phase_of(code),
            phase.wf(),
    {
        if code == 0 {
            SalePhase::Ongoing
        } else if code == 1 {
            SalePhase::Closed
        } else if code == 2 {
            SalePhase::Finished
        } else {
            SalePhase::Unknown(code)
        }
    }

    /// The code that the contract reports for the phase.
    pub fn code(&self) -> (code: u8)
        ensures
            code == self.code_spec(),
    {
        match self {
            SalePhase::Ongoing => 0,
            SalePhase::Closed => 1,
            SalePhase::Finished => 2,
            SalePhase::Unknown(code) => *code,
        }
    }

    /// Whether the sale still takes funds.
    pub fn is_ongoing(&self) -> (r: bool)
        ensures
            r == (*self == SalePhase::Ongoing),
    {
        match self {
            SalePhase::Ongoing => true,
            _ => false,
        }
    }

    /// The name that the phase is shown under; an unknown phase shows its code.
    pub fn to_string(&self) -> (s: String)
        ensures
            s@ == phase_label(*self),
    {
        match self {
            SalePhase::Ongoing => String::from_str("Ongoing"),
            SalePhase::Closed => String::from_str("Closed"),
            SalePhase::Finished => String::from_str("Finished"),
            SalePhase::Unknown(code) => {
                let digits: String = pad_decimal(*code as u64, 0);
                assert(zero_padded(decimal_digits(*code as nat), 0) == decimal_digits(*code as nat));
                let mut s: String = String::from_str("Unknown (");
                s.append(digits.as_str());
                s.append(")");
                s
            },
        }
    }
}

} // verus!
