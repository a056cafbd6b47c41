//! Token amounts: exact magnitudes in base units, read from text with a unit
//! suffix and shown at a fixed precision.
//!
//! A currency has a table of unit suffixes, each a power of ten, and one
//! canonical suffix for display. Matching ignores ASCII case and tries the
//! table from its head, where the longer of two overlapping suffixes stands
//! first. A text without any unit counts in base units.
//!
//! The magnitude is a 256-bit word. A text that spells more than that is an
//! error, as a text with malformed digits is.

use vstd::prelude::*;
use vstd::string::{StrSliceExecFns, StringExecFns};

use crate::text::{
    decimal_digits, ends_with, has_hex_prefix, lowercase, pad_decimal, radix_value,
    str_ends_with, str_has_hex_prefix, zero_padded,
};
use crate::word::{pow10, word_limit, Word256};

verus! {

/// The currencies this client counts in.
#[derive(Clone, Copy, Debug, PartialEq, Eq, Hash, Structural)]
pub enum CurrencyKind {
    /// Ether, and the wrapped token that stands for it.
    Eth,
    /// The token on sale.
    Scm,
}

/// How many unit suffixes a currency has.
pub const UNIT_COUNT: usize = 8;

/// The decimal places shown after the point, and the exponent of the whole unit.
pub const DISPLAY_DECIMALS: usize = 18;

/// The unit suffix at a place of a currency's table.
pub open spec fn unit_suffix(kind: CurrencyKind, i: int) -> Seq<char> {
    match kind {
        CurrencyKind::Eth => if i == 0 {
            "ether"@
        } else if i == 1 {
            "eth"@
        } else if i == 2 {
            "pwei"@
        } else if i == 3 {
            "twei"@
        } else if i == 4 {
            "gwei"@
        } else if i == 5 {
            "mwei"@
        } else if i == 6 {
            "kwei"@
        } else {
            "wei"@
        },
        CurrencyKind::Scm => if i == 0 {
            "scam"@
        } else if i == 1 {
            "scm"@
        } else if i == 2 {
            "msc"@
        } else if i == 3 {
            "usc"@
        } else if i == 4 {
            "nsc"@
        } else if i == 5 {
            "psc"@
        } else if i == 6 {
            "fsc"@
        } else {
            "asc"@
        },
    }
}

/// The power of ten that the unit at a place of the table multiplies by.
pub open spec fn unit_exponent(i: int) -> nat {
    if i <= 1 {
        18
    } else if i == 2 {
        15
    } else if i == 3 {
        12
    } else if i == 4 {
        9
    } else if i == 5 {
        6
    } else if i == 6 {
        3
    } else {
        0
    }
}

/// The suffix that amounts of a currency are shown with.
pub open spec fn canonical_suffix(kind: CurrencyKind) -> Seq<char> {
    unit_suffix(kind, 1)
}

/// The first place of the table, from `from` on, whose suffix the text ends
/// with; `UNIT_COUNT` if there is none.
pub open spec fn first_unit_from(kind: CurrencyKind, text: Seq<char>, from: int) -> int
    decreases UNIT_COUNT - from,
{
    if from >= UNIT_COUNT {
        UNIT_COUNT as int
    } else if ends_with(text, unit_suffix(kind, from)) {
        from
    } else {
        first_unit_from(kind, text, from + 1)
    }
}

/// The place of the unit that a text is read with; `UNIT_COUNT` if it has none.
pub open spec fn matched_unit(kind: CurrencyKind, text: Seq<char>) -> int {
    first_unit_from(kind, text, 0)
}

/// The text before its unit suffix: the digits.
pub open spec fn digits_part(kind: CurrencyKind, text: Seq<char>) -> Seq<char> {
    let i = matched_unit(kind, text);
    if i < UNIT_COUNT {
        text.subrange(0, text.len() - unit_suffix(kind, i).len())
    } else {
        text
    }
}

/// The multiplier of the unit that a text is read with; one if it has none.
pub open spec fn multiplier(kind: CurrencyKind, text: Seq<char>) -> nat {
    let i = matched_unit(kind, text);
    if i < UNIT_COUNT {
        pow10(unit_exponent(i))
    } else {
        1
    }
}

/// Why a text is no amount.
#[derive(Clone, Copy, Debug, PartialEq, Eq, Hash, Structural)]
pub enum ParseErrorKind {
    /// The digits are not a decimal number, nor `0x` and a hexadecimal one,
    /// of at most 256 bits.
    Malformed,
    /// The digits are a number, but times the unit it exceeds 256 bits.
    Overflow,
}

/// A text that is no amount, with the reason.
#[derive(Clone, Debug)]
pub struct ParseError {
    /// Why the text was refused.
    pub kind: ParseErrorKind,
    /// The text as it was given.
    pub input: String,
}

/// What the message of a parse error says: the reason, and the text.
pub open spec fn parse_error_text(kind: ParseErrorKind, input: Seq<char>) -> Seq<char> {
    match kind {
        ParseErrorKind::Malformed => "malformed amount: "@ + input,
        ParseErrorKind::Overflow => "amount out of range: "@ + input,
    }
}

impl ParseError {
    /// The message for the operator: the reason, and the text as given.
    pub fn to_string(&self) -> (s: String)
        ensures
            s@ == parse_error_text(self.kind, self.input@),
    {
        let label: &str = match self.kind {
            ParseErrorKind::Malformed => "malformed amount: ",
            ParseErrorKind::Overflow => "amount out of range: ",
        };
        String::from_str(label).concat(self.input.as_str())
    }
}

/// What a text means as an amount of a currency, in base units.
///
/// The text is put in lower case and split into digits and unit. The digits
/// are hexadecimal if they open with `0x`, else decimal. The amount is the
/// digits times the unit's multiplier.
pub open spec fn parsed(kind: CurrencyKind, text: Seq<char>) -> Result<nat, ParseErrorKind> {
    let lowered = lowercase(text);
    let digits = digits_part(kind, lowered);
    let radix = if has_hex_prefix(digits) {
        16u32
    } else {
        10u32
    };
    match radix_value(digits, radix) {
        None => Err(ParseErrorKind::Malformed),
        Some(n) => if n * multiplier(kind, lowered) < word_limit() {
            Ok(n * multiplier(kind, lowered))
        } else {
            Err(ParseErrorKind::Overflow)
        },
    }
}

/// How an amount of a currency is shown: the whole units, a point, eighteen
/// decimal places, and the canonical suffix.
pub open spec fn formatted(kind: CurrencyKind, units: nat) -> Seq<char> {
    decimal_digits(units / pow10(18)) + seq!['.'] + zero_padded(
        decimal_digits(units % pow10(18)),
        18,
    ) + canonical_suffix(kind)
}

/// `10^18` written out.
pub proof fn lemma_pow10_values()
    ensures
        pow10(0) == 1,
        pow10(3) == 1_000,
        pow10(6) == 1_000_000,
        pow10(9) == 1_000_000_000,
        pow10(12) == 1_000_000_000_000,
        pow10(15) == 1_000_000_000_000_000,
        pow10(18) == 1_000_000_000_000_000_000,
{
    reveal_with_fuel(pow10, 4);
    assert(pow10(3) == 1_000);
    assert(pow10(6) == 1_000 * pow10(3));
    assert(pow10(9) == 1_000 * pow10(6));
    assert(pow10(12) == 1_000 * pow10(9));
    assert(pow10(15) == 1_000 * pow10(12));
    assert(pow10(18) == 1_000 * pow10(15));
}

/// The unit at a place of a currency's table: its suffix and its exponent.
fn unit_entry(kind: CurrencyKind, i: usize) -> (r: (&'static str, usize))
    requires
        i < UNIT_COUNT,
    ensures
        r.0@ == unit_suffix(kind, i as int),
        r.1 == unit_exponent(i as int),
        r.1 <= 18,
{
    match kind {
        CurrencyKind::Eth => if i == 0 {
            ("ether", 18)
        } else if i == 1 {
            ("eth", 18)
        } else if i == 2 {
            ("pwei", 15)
        } else if i == 3 {
            ("twei", 12)
        } else if i == 4 {
            ("gwei", 9)
        } else if i == 5 {
            ("mwei", 6)
        } else if i == 6 {
            ("kwei", 3)
        } else {
            ("wei", 0)
        },
        CurrencyKind::Scm => if i == 0 {
            ("scam", 18)
        } else if i == 1 {
            ("scm", 18)
        } else if i == 2 {
            ("msc", 15)
        } else if i == 3 {
            ("usc", 12)
        } else if i == 4 {
            ("nsc", 9)
        } else if i == 5 {
            ("psc", 6)
        } else if i == 6 {
            ("fsc", 3)
        } else {
            ("asc", 0)
        },
    }
}

/// The place of the unit that a text is read with.
fn find_unit(kind: CurrencyKind, text: &str) -> (i: usize)
    ensures
        i == matched_unit(kind, text@),
        i <= UNIT_COUNT,
        i < UNIT_COUNT ==> ends_with(text@, unit_suffix(kind, i as int)),
{
    let mut i: usize = 0;
    while i < UNIT_COUNT
        invariant
            i <= UNIT_COUNT,
            first_unit_from(kind, text@, i as int) == matched_unit(kind, text@),
        decreases UNIT_COUNT - i,
    {
        let (suffix, _) = unit_entry(kind, i);
        if str_ends_with(text, suffix) {
            return i;
        }
        i += 1;
    }
    i
}

/// An amount of one currency, in base units.
///
/// Two amounts are equal if and only if they count the same magnitude in the
/// same currency, however each was written.
#[derive(Clone, Copy, Debug, PartialEq, Eq, Hash, Structural)]
pub struct AmountValue {
    /// The currency that the amount counts in.
    pub currency: CurrencyKind,
    /// The magnitude in base units.
    pub magnitude: Word256,
}

impl AmountValue {
    /// The currency that the amount counts in.
    pub open spec fn currency_spec(&self) -> CurrencyKind {
        self.currency
    }

    /// The magnitude in base units.
    pub open spec fn base_units(&self) -> nat {
        self.magnitude@
    }

    /// An amount is its currency and its magnitude, and nothing else.
    pub proof fn lemma_equal_by_magnitude(self, other: AmountValue)
        requires
            self.currency_spec() == other.currency_spec(),
            self.base_units() == other.base_units(),
        ensures
            self == other,
    {
        self.magnitude.lemma_view_injective(other.magnitude);
    }

    /// The amount of a currency that a ledger word stands for.
    pub fn new(currency: CurrencyKind, magnitude: Word256) -> (a: AmountValue)
        ensures
            a == (AmountValue { currency, magnitude }),
    {
        AmountValue { currency, magnitude }
    }

    /// The currency that the amount counts in.
    pub fn currency(&self) -> (c: CurrencyKind)
        ensures
            c == self.currency_spec(),
    {
        self.currency
    }

    /// The exact magnitude, as it goes into ledger calls.
    pub fn as_base_units(&self) -> (w: Word256)
        ensures
            w@ == self.base_units(),
            w == self.magnitude,
    {
        self.magnitude
    }

    /// Reads an amount from text.
    pub fn parse(currency: CurrencyKind, text: &str) -> (r: Result<AmountValue, ParseError>)
        ensures
            match parsed(currency, text@) {
                Ok(units) => r matches Ok(a) && a.base_units() == units && a.currency_spec()
                    == currency,
                Err(kind) => r matches Err(e) && e.kind == kind && e.input@ == text@,
            },
    {
        let lowered: String = text.to_ascii_lowercase();
        let s: &str = lowered.as_str();
        let i: usize = find_unit(currency, s);
        let mut digits: &str = s;
        let mut exponent: usize = 0;
        if i < UNIT_COUNT {
            let (suffix, e) = unit_entry(currency, i);
            let n: usize = s.unicode_len();
            let k: usize = suffix.unicode_len();
            digits = s.substring_char(0, n - k);
            exponent = e;
        }
        let radix: u32 = if str_has_hex_prefix(digits) {
            16
        } else {
            10
        };
        match Word256::from_str_radix(digits, radix) {
            Err(_) => Err(
                ParseError { kind: ParseErrorKind::Malformed, input: String::from_str(text) },
            ),
            Ok(number) => {
                let unit: Word256 = Word256::exp10(exponent);
                match number.checked_mul(&unit) {
                    Some(magnitude) => Ok(AmountValue { currency, magnitude }),
                    None => Err(
                        ParseError { kind: ParseErrorKind::Overflow, input: String::from_str(text) },
                    ),
                }
            },
        }
    }

    /// Shows the amount: whole units, a point, eighteen decimal places and
    /// the currency's canonical suffix.
    pub fn format(&self) -> (s: String)
        ensures
            s@ == formatted(self.currency_spec(), self.base_units()),
    {
        let unit: Word256 = Word256::exp10(DISPLAY_DECIMALS);
        proof {
            lemma_pow10_values();
        }
        let (whole, fraction) = self.magnitude.div_mod(&unit);
        let (suffix, _) = unit_entry(self.currency, 1);
        let mut s: String = whole.to_decimal();
        s.append(".");
        proof {
            reveal_strlit(".");
            assert("."@ =~= seq!['.']);
        }
        let places: String = pad_decimal(fraction.as_u64(), DISPLAY_DECIMALS);
        s.append(places.as_str());
        s.append(suffix);
        s
    }
}

} // verus!
