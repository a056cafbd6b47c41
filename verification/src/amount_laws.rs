//! What holds of reading and showing amounts, for every text and magnitude.

use vstd::prelude::*;

use crate::amount::{
    canonical_suffix, digits_part, first_unit_from, formatted, matched_unit, multiplier, parsed,
    unit_exponent, unit_suffix, CurrencyKind, ParseErrorKind, UNIT_COUNT,
};
use crate::text::{
    all_dec_digits, all_hex_digits, decimal_digits, ends_with, has_hex_prefix, is_dec_digit,
    is_hex_digit, lemma_decimal_digits_are_digits, lemma_decimal_digits_len,
    lemma_decimal_digits_value, lemma_ends_with_char, lemma_leading_zeros,
    lemma_lowercase_fixed, lemma_lowercase_idempotent, lowercase, positional_value,
    without_hex_prefix, zero_padded,
};
use crate::word::{pow10, word_limit};

verus! {

/// A small ASCII letter.
pub open spec fn is_small_letter(c: char) -> bool {
    'a' as int <= c as int <= 'z' as int
}

/// The unit suffixes, character by character.
pub proof fn lemma_unit_suffix_chars()
    ensures
        unit_suffix(CurrencyKind::Eth, 0) == seq!['e', 't', 'h', 'e', 'r'],
        unit_suffix(CurrencyKind::Eth, 1) == seq!['e', 't', 'h'],
        unit_suffix(CurrencyKind::Eth, 2) == seq!['p', 'w', 'e', 'i'],
        unit_suffix(CurrencyKind::Eth, 3) == seq!['t', 'w', 'e', 'i'],
        unit_suffix(CurrencyKind::Eth, 4) == seq!['g', 'w', 'e', 'i'],
        unit_suffix(CurrencyKind::Eth, 5) == seq!['m', 'w', 'e', 'i'],
        unit_suffix(CurrencyKind::Eth, 6) == seq!['k', 'w', 'e', 'i'],
        unit_suffix(CurrencyKind::Eth, 7) == seq!['w', 'e', 'i'],
        unit_suffix(CurrencyKind::Scm, 0) == seq!['s', 'c', 'a', 'm'],
        unit_suffix(CurrencyKind::Scm, 1) == seq!['s', 'c', 'm'],
        unit_suffix(CurrencyKind::Scm, 2) == seq!['m', 's', 'c'],
        unit_suffix(CurrencyKind::Scm, 3) == seq!['u', 's', 'c'],
        unit_suffix(CurrencyKind::Scm, 4) == seq!['n', 's', 'c'],
        unit_suffix(CurrencyKind::Scm, 5) == seq!['p', 's', 'c'],
        unit_suffix(CurrencyKind::Scm, 6) == seq!['f', 's', 'c'],
        unit_suffix(CurrencyKind::Scm, 7) == seq!['a', 's', 'c'],
{
    reveal_strlit("ether");
    reveal_strlit("eth");
    reveal_strlit("pwei");
    reveal_strlit("twei");
    reveal_strlit("gwei");
    reveal_strlit("mwei");
    reveal_strlit("kwei");
    reveal_strlit("wei");
    reveal_strlit("scam");
    reveal_strlit("scm");
    reveal_strlit("msc");
    reveal_strlit("usc");
    reveal_strlit("nsc");
    reveal_strlit("psc");
    reveal_strlit("fsc");
    reveal_strlit("asc");
    assert("ether"@ =~= seq!['e', 't', 'h', 'e', 'r']);
    assert("eth"@ =~= seq!['e', 't', 'h']);
    assert("pwei"@ =~= seq!['p', 'w', 'e', 'i']);
    assert("twei"@ =~= seq!['t', 'w', 'e', 'i']);
    assert("gwei"@ =~= seq!['g', 'w', 'e', 'i']);
    assert("mwei"@ =~= seq!['m', 'w', 'e', 'i']);
    assert("kwei"@ =~= seq!['k', 'w', 'e', 'i']);
    assert("wei"@ =~= seq!['w', 'e', 'i']);
    assert("scam"@ =~= seq!['s', 'c', 'a', 'm']);
    assert("scm"@ =~= seq!['s', 'c', 'm']);
    assert("msc"@ =~= seq!['m', 's', 'c']);
    assert("usc"@ =~= seq!['u', 's', 'c']);
    assert("nsc"@ =~= seq!['n', 's', 'c']);
    assert("psc"@ =~= seq!['p', 's', 'c']);
    assert("fsc"@ =~= seq!['f', 's', 'c']);
    assert("asc"@ =~= seq!['a', 's', 'c']);
}

/// A unit suffix is three to five small letters.
pub proof fn lemma_unit_suffix_letters(kind: CurrencyKind, i: int)
    requires
        0 <= i < UNIT_COUNT,
    ensures
        3 <= unit_suffix(kind, i).len() <= 5,
        forall|k: int|
            0 <= k < unit_suffix(kind, i).len() ==> is_small_letter(
                #[trigger] unit_suffix(kind, i)[k],
            ),
{
    lemma_unit_suffix_chars();
}

/// A text that ends with a unit has one of the letters `s`, `t`, `w` among
/// its last four characters.
proof fn lemma_unit_mark(kind: CurrencyKind, text: Seq<char>, j: int)
    requires
        0 <= j < UNIT_COUNT,
        ends_with(text, unit_suffix(kind, j)),
    ensures
        exists|back: int|
            1 <= back <= 5 && back <= text.len() && {
                let c = #[trigger] text[text.len() - back];
                c == 's' || c == 't' || c == 'w'
            },
{
    lemma_unit_suffix_chars();
    let s = unit_suffix(kind, j);
    lemma_ends_with_char(text, s, 1);
    lemma_ends_with_char(text, s, 2);
    lemma_ends_with_char(text, s, 3);
    if s.len() >= 4 {
        lemma_ends_with_char(text, s, 4);
    }
    if kind == CurrencyKind::Eth {
        if j == 0 {
            assert(text[text.len() - 4] == 't');
        } else if j == 1 {
            assert(text[text.len() - 2] == 't');
        } else {
            assert(text[text.len() - 3] == 'w');
        }
    } else {
        if j == 0 {
            assert(text[text.len() - 4] == 's');
        } else if j == 1 {
            assert(text[text.len() - 3] == 's');
        } else {
            assert(text[text.len() - 2] == 's');
        }
    }
}

/// A character that can stand last in the digits of an amount: a digit of
/// either radix, the `x` of the hexadecimal prefix, or a point.
pub open spec fn closes_digits(c: char) -> bool {
    is_hex_digit(c) || c == 'x' || c == '.'
}

/// Where digits are followed by a unit, no unit that stands earlier in the
/// table matches in its place.
proof fn lemma_not_earlier(kind: CurrencyKind, body: Seq<char>, i: int, j: int)
    requires
        0 <= j < i < UNIT_COUNT,
        body.len() > 0 ==> closes_digits(body.last()),
    ensures
        !ends_with(body + unit_suffix(kind, i), unit_suffix(kind, j)),
{
    lemma_unit_suffix_chars();
    let si = unit_suffix(kind, i);
    let sj = unit_suffix(kind, j);
    let text = body + si;
    if ends_with(text, sj) {
        lemma_ends_with_char(text, sj, 1);
        lemma_ends_with_char(text, sj, 2);
        lemma_ends_with_char(text, sj, 3);
        assert(text[text.len() - 1] == si[si.len() - 1]);
        assert(text[text.len() - 2] == si[si.len() - 2]);
        assert(text[text.len() - 3] == si[si.len() - 3]);
        if sj.len() >= 4 {
            lemma_ends_with_char(text, sj, 4);
            if si.len() >= 4 {
                assert(text[text.len() - 4] == si[si.len() - 4]);
            } else {
                assert(body.len() > 0);
                assert(text[text.len() - 4] == body.last());
            }
        }
        assert(false);
    }
}

/// Digits followed by a unit of the table are read with that unit.
pub proof fn lemma_unit_found(kind: CurrencyKind, body: Seq<char>, i: int)
    requires
        0 <= i < UNIT_COUNT,
        body.len() > 0 ==> closes_digits(body.last()),
    ensures
        matched_unit(kind, body + unit_suffix(kind, i)) == i,
        digits_part(kind, body + unit_suffix(kind, i)) == body,
        multiplier(kind, body + unit_suffix(kind, i)) == pow10(unit_exponent(i)),
{
    let si = unit_suffix(kind, i);
    let text = body + si;
    assert(text.subrange(text.len() - si.len(), text.len() as int) =~= si);
    assert(text.subrange(0, text.len() - si.len()) =~= body);
    assert forall|j: int| 0 <= j < i implies !ends_with(text, unit_suffix(kind, j)) by {
        lemma_not_earlier(kind, body, i, j);
    }
    lemma_first_unit(kind, text, 0, i);
}

/// The first match from `from` on is at `i`, when `i` matches and nothing
/// between the two does.
proof fn lemma_first_unit(kind: CurrencyKind, text: Seq<char>, from: int, i: int)
    requires
        0 <= from <= i <= UNIT_COUNT,
        i < UNIT_COUNT ==> ends_with(text, unit_suffix(kind, i)),
        forall|j: int| from <= j < i ==> !ends_with(text, unit_suffix(kind, j)),
    ensures
        first_unit_from(kind, text, from) == i,
    decreases i - from,
{
    if from < i {
        lemma_first_unit(kind, text, from + 1, i);
    }
}

/// A text of digits alone, of either radix, is read without a unit.
pub proof fn lemma_no_unit(kind: CurrencyKind, text: Seq<char>)
    requires
        forall|k: int| 0 <= k < text.len() ==> closes_digits(#[trigger] text[k]),
    ensures
        matched_unit(kind, text) == UNIT_COUNT,
        digits_part(kind, text) == text,
        multiplier(kind, text) == 1,
{
    assert forall|j: int| 0 <= j < UNIT_COUNT implies !ends_with(text, unit_suffix(kind, j)) by {
        if ends_with(text, unit_suffix(kind, j)) {
            lemma_unit_mark(kind, text, j);
        }
    }
    lemma_first_unit(kind, text, 0, UNIT_COUNT as int);
}

/// The unit that a text is read with is the first of the table that the text
/// ends with, and no unit that the text ends with is longer.
pub proof fn lemma_longest_unit_first(kind: CurrencyKind, text: Seq<char>, j: int)
    requires
        0 <= j < UNIT_COUNT,
        ends_with(text, unit_suffix(kind, j)),
    ensures
        0 <= matched_unit(kind, text) <= j,
        ends_with(text, unit_suffix(kind, matched_unit(kind, text))),
        unit_suffix(kind, matched_unit(kind, text)).len() >= unit_suffix(kind, j).len(),
{
    let m = matched_unit(kind, text);
    lemma_first_unit_is_match(kind, text, 0);
    assert(m <= j) by {
        lemma_first_unit_bound(kind, text, 0, j);
    }
    lemma_unit_suffix_chars();
    if m < j && unit_suffix(kind, m).len() < unit_suffix(kind, j).len() {
        let sm = unit_suffix(kind, m);
        let sj = unit_suffix(kind, j);
        lemma_ends_with_char(text, sm, 1);
        lemma_ends_with_char(text, sj, 1);
        lemma_ends_with_char(text, sm, 2);
        lemma_ends_with_char(text, sj, 2);
        assert(false);
    }
}

/// What `first_unit_from` finds is in the table's range and matches.
proof fn lemma_first_unit_is_match(kind: CurrencyKind, text: Seq<char>, from: int)
    requires
        0 <= from <= UNIT_COUNT,
    ensures
        from <= first_unit_from(kind, text, from) <= UNIT_COUNT,
        first_unit_from(kind, text, from) < UNIT_COUNT ==> ends_with(
            text,
            unit_suffix(kind, first_unit_from(kind, text, from)),
        ),
    decreases UNIT_COUNT - from,
{
    if from < UNIT_COUNT && !ends_with(text, unit_suffix(kind, from)) {
        lemma_first_unit_is_match(kind, text, from + 1);
    }
}

/// `first_unit_from` does not pass over a match.
proof fn lemma_first_unit_bound(kind: CurrencyKind, text: Seq<char>, from: int, j: int)
    requires
        0 <= from <= j < UNIT_COUNT,
        ends_with(text, unit_suffix(kind, j)),
    ensures
        first_unit_from(kind, text, from) <= j,
    decreases j - from,
{
    if from < j && !ends_with(text, unit_suffix(kind, from)) {
        lemma_first_unit_bound(kind, text, from + 1, j);
    }
}

/// Digits with the unit at a place of the table behind them; with nothing
/// behind them for the place `UNIT_COUNT`.
pub open spec fn with_unit(kind: CurrencyKind, digits: Seq<char>, unit: int) -> Seq<char> {
    if 0 <= unit < UNIT_COUNT {
        digits + unit_suffix(kind, unit)
    } else {
        digits
    }
}

/// The multiplier of the unit at a place of the table; one for the place
/// `UNIT_COUNT`, which stands for no unit.
pub open spec fn unit_multiplier(unit: int) -> nat {
    if 0 <= unit < UNIT_COUNT {
        pow10(unit_exponent(unit))
    } else {
        1
    }
}

/// Capitals and small letters spell the same hexadecimal number.
pub proof fn lemma_hex_value_ignores_case(s: Seq<char>)
    requires
        all_hex_digits(s),
    ensures
        all_hex_digits(lowercase(s)),
        positional_value(lowercase(s), 16) == positional_value(s, 16),
    decreases s.len(),
{
    let l = lowercase(s);
    assert forall|i: int| 0 <= i < l.len() implies is_hex_digit(#[trigger] l[i]) by {
        assert(is_hex_digit(s[i]));
    }
    if s.len() > 0 {
        assert(l.drop_last() =~= lowercase(s.drop_last()));
        assert(is_hex_digit(s.last()));
        lemma_hex_value_ignores_case(s.drop_last());
    }
}

/// Reading ignores the case of the text.
pub proof fn lemma_parse_ignores_case(kind: CurrencyKind, text: Seq<char>)
    ensures
        parsed(kind, lowercase(text)) == parsed(kind, text),
{
    lemma_lowercase_idempotent(text);
}

/// Decimal digits with a unit are read as the number they spell times the
/// unit's multiplier.
///
/// Digits that spell `2^256` or more are malformed; a product of that size
/// overflows.
pub proof fn lemma_parse_decimal(kind: CurrencyKind, digits: Seq<char>, unit: int)
    requires
        all_dec_digits(digits),
        0 <= unit <= UNIT_COUNT,
    ensures
        parsed(kind, with_unit(kind, digits, unit)) == (if positional_value(digits, 10)
            >= word_limit() {
            Err::<nat, ParseErrorKind>(ParseErrorKind::Malformed)
        } else if positional_value(digits, 10) * unit_multiplier(unit) >= word_limit() {
            Err(ParseErrorKind::Overflow)
        } else {
            Ok(positional_value(digits, 10) * unit_multiplier(unit))
        }),
{
    let text = with_unit(kind, digits, unit);
    assert forall|k: int| 0 <= k < digits.len() implies closes_digits(#[trigger] digits[k]) by {
        assert(is_dec_digit(digits[k]));
    }
    if unit < UNIT_COUNT {
        lemma_unit_suffix_letters(kind, unit);
        lemma_unit_found(kind, digits, unit);
    } else {
        lemma_no_unit(kind, digits);
    }
    assert forall|k: int| 0 <= k < text.len() implies !('A' as int <= (#[trigger] text[k]) as int
        <= 'Z' as int) by {
        if k < digits.len() {
            assert(is_dec_digit(digits[k]));
        } else {
            assert(is_small_letter(unit_suffix(kind, unit)[k - digits.len()]));
        }
    }
    lemma_lowercase_fixed(text);
    if digits.len() >= 2 {
        assert(is_dec_digit(digits[1]));
    }
    assert(!has_hex_prefix(digits));
}

/// A text that is decimal digits and a unit in any mix of capitals and small
/// letters is read as the digits times the unit's multiplier.
pub proof fn lemma_parse_decimal_any_case(
    kind: CurrencyKind,
    text: Seq<char>,
    digits: Seq<char>,
    unit: int,
)
    requires
        all_dec_digits(digits),
        0 <= unit <= UNIT_COUNT,
        lowercase(text) == with_unit(kind, digits, unit),
        positional_value(digits, 10) * unit_multiplier(unit) < word_limit(),
    ensures
        parsed(kind, text) == Ok::<nat, ParseErrorKind>(
            positional_value(digits, 10) * unit_multiplier(unit),
        ),
{
    lemma_parse_ignores_case(kind, text);
    lemma_parse_decimal(kind, digits, unit);
    assert(unit_multiplier(unit) >= 1) by {
        lemma_pow10_is_positive(unit_exponent(unit));
    }
    assert(positional_value(digits, 10) < word_limit()) by (nonlinear_arith)
        requires
            positional_value(digits, 10) * unit_multiplier(unit) < word_limit(),
            unit_multiplier(unit) >= 1,
    ;
}

/// `0x` and hexadecimal digits with a unit are read as the number the digits
/// spell times the unit's multiplier; a product of `2^256` or more overflows.
pub proof fn lemma_parse_hex(kind: CurrencyKind, digits: Seq<char>, unit: int)
    requires
        all_hex_digits(digits),
        digits.len() <= 64,
        0 <= unit <= UNIT_COUNT,
    ensures
        parsed(kind, with_unit(kind, seq!['0', 'x'] + digits, unit)) == (if positional_value(
            digits,
            16,
        ) * unit_multiplier(unit) >= word_limit() {
            Err::<nat, ParseErrorKind>(ParseErrorKind::Overflow)
        } else {
            Ok(positional_value(digits, 16) * unit_multiplier(unit))
        }),
{
    let text = with_unit(kind, seq!['0', 'x'] + digits, unit);
    let low = lowercase(digits);
    let body = seq!['0', 'x'] + low;
    lemma_hex_value_ignores_case(digits);
    assert forall|k: int| 0 <= k < body.len() implies closes_digits(#[trigger] body[k]) by {
        if k >= 2 {
            assert(is_hex_digit(low[k - 2]));
        }
    }
    if unit < UNIT_COUNT {
        let suffix = unit_suffix(kind, unit);
        lemma_unit_suffix_letters(kind, unit);
        assert forall|k: int| 0 <= k < suffix.len() implies lowercase(suffix)[k] == suffix[k] by {
            assert(is_small_letter(suffix[k]));
        }
        assert(lowercase(text) =~= body + suffix);
        lemma_unit_found(kind, body, unit);
    } else {
        assert(lowercase(text) =~= body);
        lemma_no_unit(kind, body);
    }
    assert(has_hex_prefix(body));
    assert(without_hex_prefix(body) =~= low);
}

/// A magnitude written in decimal, with no unit, is read back as itself.
pub proof fn lemma_parse_reads_base_units(kind: CurrencyKind, units: nat)
    requires
        units < word_limit(),
    ensures
        parsed(kind, decimal_digits(units)) == Ok::<nat, ParseErrorKind>(units),
{
    lemma_decimal_digits_are_digits(units);
    lemma_decimal_digits_value(units);
    lemma_parse_decimal(kind, decimal_digits(units), UNIT_COUNT as int);
}

/// The whole units of a magnitude, as they are shown.
pub open spec fn whole_text(units: nat) -> Seq<char> {
    decimal_digits(units / pow10(18))
}

/// The decimal places of a magnitude, as they are shown.
pub open spec fn fraction_text(units: nat) -> Seq<char> {
    zero_padded(decimal_digits(units % pow10(18)), 18)
}

/// The decimal places are eighteen digits, and spell the remainder.
pub proof fn lemma_fraction_text(units: nat)
    ensures
        fraction_text(units).len() == 18,
        all_dec_digits(fraction_text(units)),
        positional_value(fraction_text(units), 10) == units % pow10(18),
{
    lemma_pow10_is_positive(18);
    let rest = units % pow10(18);
    let digits = decimal_digits(rest);
    lemma_decimal_digits_len(rest, 18);
    lemma_decimal_digits_are_digits(rest);
    lemma_decimal_digits_value(rest);
    let padded = fraction_text(units);
    if digits.len() < 18 {
        let lead = (18 - digits.len()) as nat;
        lemma_leading_zeros(lead, digits, 10);
        assert forall|i: int| 0 <= i < padded.len() implies is_dec_digit(#[trigger] padded[i]) by {
            if i >= lead {
                assert(is_dec_digit(digits[i - lead]));
            }
        }
    }
}

/// A power of ten is positive.
pub proof fn lemma_pow10_is_positive(e: nat)
    ensures
        pow10(e) > 0,
    decreases e,
{
    if e > 0 {
        lemma_pow10_is_positive((e - 1) as nat);
    }
}

/// An amount is shown as at least one digit, a point, exactly eighteen
/// digits and the canonical suffix of its currency, whatever its magnitude.
pub proof fn lemma_format_shape(kind: CurrencyKind, units: nat)
    ensures
        ({
            let text = formatted(kind, units);
            let whole = whole_text(units).len() as int;
            &&& whole >= 1
            &&& text.len() == whole + 19 + canonical_suffix(kind).len()
            &&& forall|i: int| 0 <= i < whole ==> is_dec_digit(#[trigger] text[i])
            &&& text[whole] == '.'
            &&& forall|i: int| whole < i <= whole + 18 ==> is_dec_digit(#[trigger] text[i])
            &&& text.subrange(whole + 19, text.len() as int) == canonical_suffix(kind)
        }),
{
    let text = formatted(kind, units);
    let w = whole_text(units);
    let f = fraction_text(units);
    lemma_decimal_digits_are_digits(units / pow10(18));
    lemma_fraction_text(units);
    assert forall|i: int| 0 <= i < w.len() implies is_dec_digit(#[trigger] text[i]) by {
        assert(is_dec_digit(w[i]));
    }
    assert forall|i: int| w.len() < i <= w.len() + 18 implies is_dec_digit(#[trigger] text[i]) by {
        assert(is_dec_digit(f[i - w.len() - 1]));
    }
    assert(text.subrange(w.len() as int + 19, text.len() as int) =~= canonical_suffix(kind));
}

/// How an amount is shown depends on its magnitude alone: two texts that are
/// read as the same magnitude are shown alike, whatever units they were
/// written in.
pub proof fn lemma_format_ignores_notation(kind: CurrencyKind, first: Seq<char>, second: Seq<char>)
    requires
        parsed(kind, first) is Ok,
        parsed(kind, first) == parsed(kind, second),
    ensures
        formatted(kind, parsed(kind, first)->Ok_0) == formatted(kind, parsed(kind, second)->Ok_0),
{
}

/// Showing loses nothing: amounts that are shown alike have the same
/// magnitude.
pub proof fn lemma_format_injective(kind: CurrencyKind, first: nat, second: nat)
    requires
        formatted(kind, first) == formatted(kind, second),
    ensures
        first == second,
{
    let a = formatted(kind, first);
    let b = formatted(kind, second);
    let wa = whole_text(first);
    let wb = whole_text(second);
    let fa = fraction_text(first);
    let fb = fraction_text(second);
    lemma_fraction_text(first);
    lemma_fraction_text(second);
    lemma_pow10_is_positive(18);
    assert(a.len() == wa.len() + 19 + canonical_suffix(kind).len());
    assert(b.len() == wb.len() + 19 + canonical_suffix(kind).len());
    assert(wa.len() == wb.len());
    assert(wa =~= a.subrange(0, wa.len() as int));
    assert(wb =~= b.subrange(0, wb.len() as int));
    assert(fa =~= a.subrange(wa.len() as int + 1, wa.len() as int + 19));
    assert(fb =~= b.subrange(wb.len() as int + 1, wb.len() as int + 19));
    lemma_decimal_digits_value(first / pow10(18));
    lemma_decimal_digits_value(second / pow10(18));
    assert(first / pow10(18) == second / pow10(18));
    assert(first % pow10(18) == second % pow10(18));
    vstd::arithmetic::div_mod::lemma_fundamental_div_mod(first as int, pow10(18) as int);
    vstd::arithmetic::div_mod::lemma_fundamental_div_mod(second as int, pow10(18) as int);
}

/// The shown form is for display only: read as an amount it is malformed,
/// because of its point.
pub proof fn lemma_formatted_is_not_parsed(kind: CurrencyKind, units: nat)
    ensures
        parsed(kind, formatted(kind, units)) == Err::<nat, ParseErrorKind>(
            ParseErrorKind::Malformed,
        ),
{
    let text = formatted(kind, units);
    let w = whole_text(units);
    let f = fraction_text(units);
    let suffix = canonical_suffix(kind);
    let body = w + seq!['.'] + f;
    lemma_decimal_digits_are_digits(units / pow10(18));
    lemma_fraction_text(units);
    lemma_unit_suffix_letters(kind, 1);
    assert(text =~= body + suffix);
    assert(body.last() == f[17]);
    assert(is_dec_digit(f[17]));
    lemma_unit_found(kind, body, 1);
    assert forall|k: int| 0 <= k < text.len() implies !('A' as int <= (#[trigger] text[k]) as int
        <= 'Z' as int) by {
        if k < w.len() {
            assert(is_dec_digit(w[k]));
        } else if k == w.len() {
        } else if k < body.len() {
            assert(is_dec_digit(f[k - w.len() - 1]));
        } else {
            assert(is_small_letter(suffix[k - body.len()]));
        }
    }
    lemma_lowercase_fixed(text);
    assert(!has_hex_prefix(body)) by {
        if w.len() >= 2 {
            assert(is_dec_digit(w[1]));
            assert(body[1] == w[1]);
        } else {
            assert(body[1] == '.');
        }
    }
    assert(!all_dec_digits(body)) by {
        assert(body[w.len() as int] == '.');
        assert(!is_dec_digit(body[w.len() as int]));
    }
}

} // verus!
