//! What digit strings mean, and the few string operations the parsers need.

use vstd::prelude::*;
use vstd::string::StrSliceExecFns;

use crate::word::{pow10, word_limit};

verus! {

/// One of `'0'..='9'`.
pub open spec fn is_dec_digit(c: char) -> bool {
    '0' as int <= c as int <= '9' as int
}

/// A decimal digit, or a letter `a..f` in either case.
pub open spec fn is_hex_digit(c: char) -> bool {
    is_dec_digit(c) || 'a' as int <= c as int <= 'f' as int || 'A' as int <= c as int <= 'F' as int
}

/// The value of one digit; hexadecimal letters count from ten.
pub open spec fn digit_value(c: char) -> nat {
    if is_dec_digit(c) {
        (c as int - '0' as int) as nat
    } else if 'a' as int <= c as int <= 'f' as int {
        (c as int - 'a' as int + 10) as nat
    } else {
        (c as int - 'A' as int + 10) as nat
    }
}

/// The character for a digit below ten.
pub open spec fn digit_char(d: nat) -> char {
    ('0' as int + d) as char
}

/// Whether every character is a decimal digit.
pub open spec fn all_dec_digits(s: Seq<char>) -> bool {
    forall|i: int| 0 <= i < s.len() ==> is_dec_digit(#[trigger] s[i])
}

/// Whether every character is a hexadecimal digit.
pub open spec fn all_hex_digits(s: Seq<char>) -> bool {
    forall|i: int| 0 <= i < s.len() ==> is_hex_digit(#[trigger] s[i])
}

/// The number that a digit string spells in a base, most significant digit
/// first. The empty string spells zero.
pub open spec fn positional_value(s: Seq<char>, base: nat) -> nat
    decreases s.len(),
{
    if s.len() == 0 {
        0
    } else {
        positional_value(s.drop_last(), base) * base + digit_value(s.last())
    }
}

/// Whether the text opens with `0x`.
pub open spec fn has_hex_prefix(s: Seq<char>) -> bool {
    s.len() >= 2 && s[0] == '0' && s[1] == 'x'
}

/// The text without one leading `0x`, if it has one.
pub open spec fn without_hex_prefix(s: Seq<char>) -> Seq<char> {
    if has_hex_prefix(s) {
        s.subrange(2, s.len() as int)
    } else {
        s
    }
}

/// The 256-bit number that a text spells in a radix.
///
/// Radix 10 takes decimal digits only, as many as spell a number below
/// `2^256`. Radix 16 takes an optional `0x` and then at most 64 hexadecimal
/// digits. No other radix is read. The empty digit string spells zero.
pub open spec fn radix_value(text: Seq<char>, radix: u32) -> Option<nat> {
    if radix == 10 {
        if all_dec_digits(text) && positional_value(text, 10) < word_limit() {
            Some(positional_value(text, 10))
        } else {
            None
        }
    } else if radix == 16 {
        let digits = without_hex_prefix(text);
        if all_hex_digits(digits) && digits.len() <= 64 {
            Some(positional_value(digits, 16))
        } else {
            None
        }
    } else {
        None
    }
}

/// The decimal digits of a number, without leading zeros; `"0"` for zero.
pub open spec fn decimal_digits(n: nat) -> Seq<char>
    decreases n,
{
    if n < 10 {
        seq![digit_char(n)]
    } else {
        decimal_digits(n / 10).push(digit_char(n % 10))
    }
}

/// A run of `count` zeros.
pub open spec fn zeros(count: nat) -> Seq<char> {
    Seq::new(count, |i: int| '0')
}

/// The text, with zeros in front of it until it is `width` long.
pub open spec fn zero_padded(s: Seq<char>, width: nat) -> Seq<char> {
    if s.len() >= width {
        s
    } else {
        zeros((width - s.len()) as nat) + s
    }
}

/// An ASCII capital as its small letter, any other character as itself.
pub open spec fn ascii_lower(c: char) -> char {
    if 'A' as int <= c as int <= 'Z' as int {
        (c as int + 32) as char
    } else {
        c
    }
}

/// The text with every ASCII capital replaced by its small letter.
pub open spec fn lowercase(s: Seq<char>) -> Seq<char> {
    Seq::new(s.len(), |i: int| ascii_lower(s[i]))
}

/// Whether the text ends with the given suffix.
pub open spec fn ends_with(s: Seq<char>, suffix: Seq<char>) -> bool {
    suffix.len() <= s.len() && s.subrange(s.len() - suffix.len(), s.len() as int) == suffix
}

/// Every character of a decimal rendering is a decimal digit.
pub proof fn lemma_decimal_digits_are_digits(n: nat)
    ensures
        all_dec_digits(decimal_digits(n)),
        decimal_digits(n).len() >= 1,
    decreases n,
{
    if n >= 10 {
        lemma_decimal_digits_are_digits(n / 10);
    }
}

/// A number below `10^width` has at most `width` decimal digits.
pub proof fn lemma_decimal_digits_len(n: nat, width: nat)
    requires
        width >= 1,
        n < pow10(width),
    ensures
        decimal_digits(n).len() <= width,
    decreases width,
{
    reveal_with_fuel(pow10, 2);
    if n >= 10 {
        assert(width >= 2);
        lemma_decimal_digits_len(n / 10, (width - 1) as nat);
    }
}

/// Reading the decimal rendering of a number gives the number back.
pub proof fn lemma_decimal_digits_value(n: nat)
    ensures
        positional_value(decimal_digits(n), 10) == n,
    decreases n,
{
    let d = decimal_digits(n);
    if n < 10 {
        assert(d.drop_last() =~= Seq::<char>::empty());
        assert(positional_value(d.drop_last(), 10) == 0);
    } else {
        lemma_decimal_digits_value(n / 10);
        assert(d.drop_last() =~= decimal_digits(n / 10));
    }
}

/// Leading zeros do not change what a digit string spells.
pub proof fn lemma_leading_zeros(count: nat, s: Seq<char>, base: nat)
    ensures
        positional_value(zeros(count) + s, base) == positional_value(s, base),
    decreases s.len(), count,
{
    let t = zeros(count) + s;
    if s.len() > 0 {
        assert(t.drop_last() =~= zeros(count) + s.drop_last());
        assert(t.last() == s.last());
        lemma_leading_zeros(count, s.drop_last(), base);
        assert(positional_value(t, base) == positional_value(t.drop_last(), base) * base
            + digit_value(t.last()));
    } else if count > 0 {
        assert(t.drop_last() =~= zeros((count - 1) as nat) + s);
        assert(t.last() == '0');
        lemma_leading_zeros((count - 1) as nat, s, base);
        let head = positional_value(t.drop_last(), base);
        assert(head == 0);
        assert(head * base == 0) by (nonlinear_arith)
            requires
                head == 0,
        ;
        assert(positional_value(t, base) == head * base + digit_value(t.last()));
    } else {
        assert(t =~= s);
    }
}

/// A text that ends with a suffix agrees with it character by character,
/// counted from the end.
pub proof fn lemma_ends_with_char(s: Seq<char>, suffix: Seq<char>, back: int)
    requires
        ends_with(s, suffix),
        1 <= back <= suffix.len(),
    ensures
        s[s.len() - back] == suffix[suffix.len() - back],
{
    let tail = s.subrange(s.len() - suffix.len(), s.len() as int);
    assert(tail[suffix.len() - back] == s[s.len() - back]);
}

/// Putting a text in lower case twice is putting it in lower case once.
pub proof fn lemma_lowercase_idempotent(s: Seq<char>)
    ensures
        lowercase(lowercase(s)) == lowercase(s),
{
    assert(lowercase(lowercase(s)) =~= lowercase(s));
}

/// A text without ASCII capitals is its own lower case.
pub proof fn lemma_lowercase_fixed(s: Seq<char>)
    requires
        forall|i: int| 0 <= i < s.len() ==> !('A' as int <= (#[trigger] s[i]) as int <= 'Z' as int),
    ensures
        lowercase(s) == s,
{
    assert(lowercase(s) =~= s);
}

/// `str::to_ascii_lowercase`: a copy of the text in which each ASCII capital
/// is replaced by its small letter and nothing else changes.
pub assume_specification[ str::to_ascii_lowercase ](s: &str) -> (r: String)
    ensures
        r@ == lowercase(s@),
;

/// `format!` with `{:0>width$}` on an unsigned number: its decimal digits,
/// with zeros in front up to the width. The width is kept small: the
/// formatting machinery does not take every width.
#[verifier::external_body]
pub(crate) fn pad_decimal(n: u64, width: usize) -> (s: String)
    requires
        width <= 64,
    ensures
        s@ == zero_padded(decimal_digits(n as nat), width as nat),
{
    format!("{:0>width$}", n, width = width)
}

/// Whether `text` ends with `suffix`.
pub fn str_ends_with(text: &str, suffix: &str) -> (r: bool)
    ensures
        r == ends_with(text@, suffix@),
{
    let n: usize = text.unicode_len();
    let k: usize = suffix.unicode_len();
    if k > n {
        return false;
    }
    let start: usize = n - k;
    let mut i: usize = 0;
    while i < k
        invariant
            i <= k <= n,
            start == n - k,
            n == text@.len(),
            k == suffix@.len(),
            forall|j: int| 0 <= j < i ==> text@[start + j] == suffix@[j],
        decreases k - i,
    {
        if text.get_char(start + i) != suffix.get_char(i) {
            assert(text@.subrange(n - k, n as int)[i as int] != suffix@[i as int]);
            return false;
        }
        i += 1;
    }
    assert(text@.subrange(n - k, n as int) =~= suffix@);
    true
}

/// Whether `text` opens with `0x`.
pub fn str_has_hex_prefix(text: &str) -> (r: bool)
    ensures
        r == has_hex_prefix(text@),
{
    let n: usize = text.unicode_len();
    n >= 2 && text.get_char(0) == '0' && text.get_char(1) == 'x'
}

} // verus!
