//! Numbers as text: whole numbers, and decimals held as millionths.
//!
//! A whole number is an optional sign and one or more digits. A decimal is an
//! optional sign, digits, and optionally a point and more digits, with at
//! least one digit in all; digits past the sixth after the point are cut.

use vstd::prelude::*;
use vstd::string::StringExecFns;
use crate::text::{chars_of, next_mark};

verus! {

/// Why a text is no whole number of the wanted size.
#[derive(Clone, Copy, Debug, PartialEq, Eq, Structural)]
pub enum IntError {
    /// The text is empty.
    Empty,
    /// The text is not a sign and digits.
    InvalidDigit,
    /// The number is too large.
    PosOverflow,
    /// The number is too small.
    NegOverflow,
}

/// Why a text is no decimal.
#[derive(Clone, Copy, Debug, PartialEq, Eq, Structural)]
pub enum DecimalError {
    /// The text is empty.
    Empty,
    /// The text is not a decimal, or a decimal too large to hold.
    Invalid,
}

/// Whether `c` is a decimal digit.
pub open spec fn is_digit(c: char) -> bool {
    '0' <= c && c <= '9'
}

/// The number that the digit `c` stands for.
pub open spec fn digit_value(c: char) -> int {
    c as int - 48
}

/// The digit that stands for `value`, a number below ten.
pub open spec fn digit_char(value: int) -> char {
    (value + 48) as char
}

/// Whether `c` is a sign.
pub open spec fn is_sign(c: char) -> bool {
    c == '+' || c == '-'
}

/// Whether every character of `s` is a digit.
pub open spec fn all_digits(s: Seq<char>) -> bool {
    forall|i: int| 0 <= i < s.len() ==> is_digit(#[trigger] s[i])
}

/// The number that a sequence of digits stands for; nothing for none.
pub open spec fn digits_value(s: Seq<char>) -> int
    decreases s.len(),
{
    if s.len() == 0 {
        0
    } else {
        digits_value(s.drop_last()) * 10 + digit_value(s.last())
    }
}

/// Ten to the power of `n`.
pub open spec fn pow10(n: nat) -> int
    decreases n,
{
    if n == 0 {
        1
    } else {
        10 * pow10((n - 1) as nat)
    }
}

/// `s` without its sign, if it begins with one.
pub open spec fn unsigned(s: Seq<char>) -> Seq<char> {
    if s.len() > 0 && is_sign(s[0]) {
        s.subrange(1, s.len() as int)
    } else {
        s
    }
}

/// Whether `s` begins with a minus sign.
pub open spec fn negative(s: Seq<char>) -> bool {
    s.len() > 0 && s[0] == '-'
}

/// The whole number that `s` stands for, however large.
pub open spec fn int_text(s: Seq<char>) -> Result<int, IntError> {
    if s.len() == 0 {
        Err(IntError::Empty)
    } else if unsigned(s).len() == 0 || !all_digits(unsigned(s)) {
        Err(IntError::InvalidDigit)
    } else if negative(s) {
        Ok(-digits_value(unsigned(s)))
    } else {
        Ok(digits_value(unsigned(s)))
    }
}

/// The whole number of thirty-two bits that `s` stands for.
pub open spec fn i32_text(s: Seq<char>) -> Result<i32, IntError> {
    match int_text(s) {
        Err(e) => Err(e),
        Ok(value) => if value > i32::MAX {
            Err(IntError::PosOverflow)
        } else if value < i32::MIN {
            Err(IntError::NegOverflow)
        } else {
            Ok(value as i32)
        },
    }
}

/// The digits of `s`, unsigned, before the point.
pub open spec fn whole_part(s: Seq<char>) -> Seq<char> {
    unsigned(s).subrange(0, next_mark(unsigned(s), '.', 0))
}

/// The digits of `s`, unsigned, after the point; none where there is no
/// point.
pub open spec fn fraction_part(s: Seq<char>) -> Seq<char> {
    let body = unsigned(s);
    let point = next_mark(body, '.', 0);
    if point < body.len() {
        body.subrange(point + 1, body.len() as int)
    } else {
        Seq::empty()
    }
}

/// The millionths that the digits after a point stand for: the first six
/// count, the rest is cut.
pub open spec fn fraction_value(digits: Seq<char>) -> int {
    if digits.len() >= 6 {
        digits_value(digits.subrange(0, 6))
    } else {
        digits_value(digits) * pow10((6 - digits.len()) as nat)
    }
}

/// Whether `s` is written as a decimal.
pub open spec fn is_decimal(s: Seq<char>) -> bool {
    &&& whole_part(s).len() + fraction_part(s).len() > 0
    &&& all_digits(whole_part(s))
    &&& all_digits(fraction_part(s))
}

/// The millionths that the decimal `s` stands for, however large.
pub open spec fn decimal_value(s: Seq<char>) -> int {
    let size = digits_value(whole_part(s)) * 1_000_000 + fraction_value(fraction_part(s));
    if negative(s) {
        -size
    } else {
        size
    }
}

/// The millionths that `s` stands for as a decimal.
pub open spec fn decimal_text(s: Seq<char>) -> Result<i64, DecimalError> {
    if s.len() == 0 {
        Err(DecimalError::Empty)
    } else if !is_decimal(s) || decimal_value(s) > i64::MAX || decimal_value(s) < i64::MIN {
        Err(DecimalError::Invalid)
    } else {
        Ok(decimal_value(s) as i64)
    }
}

/// The digits of a number that is not negative, without leading zeros.
pub open spec fn nat_text(value: nat) -> Seq<char>
    decreases value,
{
    if value < 10 {
        seq![digit_char(value as int)]
    } else {
        nat_text(value / 10).push(digit_char((value % 10) as int))
    }
}

/// A whole number as text: a minus sign where it is negative, then its
/// digits.
pub open spec fn whole_text(value: int) -> Seq<char> {
    if value < 0 {
        seq!['-'] + nat_text((-value) as nat)
    } else {
        nat_text(value as nat)
    }
}

/// The digits after the point for `millionths`, a number below a million,
/// of which `places` are still to come: no zeros at the end, and nothing for
/// nothing.
pub open spec fn places_text(millionths: nat, places: nat) -> Seq<char>
    decreases places,
{
    if places == 0 || millionths == 0 {
        Seq::empty()
    } else {
        seq![digit_char((millionths / (pow10((places - 1) as nat) as nat)) as int)] + places_text(
            millionths % (pow10((places - 1) as nat) as nat),
            (places - 1) as nat,
        )
    }
}

/// Millionths as a decimal: the whole part, and where something is left a
/// point and the digits after it, without zeros at the end.
pub open spec fn micro_text(value: int) -> Seq<char> {
    let size: nat = if value < 0 {
        (-value) as nat
    } else {
        value as nat
    };
    let sign: Seq<char> = if value < 0 {
        seq!['-']
    } else {
        Seq::empty()
    };
    let whole = nat_text(size / 1_000_000);
    if size % 1_000_000 == 0 {
        sign + whole
    } else {
        sign + whole + seq!['.'] + places_text(size % 1_000_000, 6)
    }
}

/// Adding a digit at the end multiplies by ten and adds the digit.
pub proof fn lemma_digits_value_push(s: Seq<char>, i: int)
    requires
        0 <= i < s.len(),
    ensures
        digits_value(s.subrange(0, i + 1)) == digits_value(s.subrange(0, i)) * 10 + digit_value(
            s[i],
        ),
{
    let longer = s.subrange(0, i + 1);
    assert(longer.drop_last() =~= s.subrange(0, i));
    assert(longer.last() == s[i]);
}

/// Digits stand for a number that is not negative, and more digits never
/// for a smaller one.
pub proof fn lemma_digits_value_grows(s: Seq<char>, i: int)
    requires
        all_digits(s),
        0 <= i <= s.len(),
    ensures
        0 <= digits_value(s.subrange(0, i)) <= digits_value(s),
    decreases s.len() - i,
{
    lemma_digits_value_nonnegative(s.subrange(0, i));
    if i < s.len() {
        lemma_digits_value_push(s, i);
        assert(is_digit(s[i]));
        lemma_digits_value_grows(s, i + 1);
    } else {
        assert(s.subrange(0, i) =~= s);
    }
}

/// Digits stand for a number that is not negative.
pub proof fn lemma_digits_value_nonnegative(s: Seq<char>)
    requires
        all_digits(s),
    ensures
        0 <= digits_value(s),
    decreases s.len(),
{
    if s.len() > 0 {
        assert(is_digit(s.last()));
        lemma_digits_value_nonnegative(s.drop_last());
    }
}

/// The number that a digit stands for; none where `c` is no digit.
pub fn digit_of(c: char) -> (out: Option<u8>)
    ensures
        out.is_some() == is_digit(c),
        out.is_some() ==> out.unwrap() == digit_value(c) && out.unwrap() < 10,
{
    if c == '0' {
        Some(0)
    } else if c == '1' {
        Some(1)
    } else if c == '2' {
        Some(2)
    } else if c == '3' {
        Some(3)
    } else if c == '4' {
        Some(4)
    } else if c == '5' {
        Some(5)
    } else if c == '6' {
        Some(6)
    } else if c == '7' {
        Some(7)
    } else if c == '8' {
        Some(8)
    } else if c == '9' {
        Some(9)
    } else {
        None
    }
}

/// The digit that stands for `value`, as a text of one character.
pub fn digit_text(value: u8) -> (out: &'static str)
    requires
        value < 10,
    ensures
        out@ == seq![digit_char(value as int)],
{
    proof {
        reveal_strlit("0");
        reveal_strlit("1");
        reveal_strlit("2");
        reveal_strlit("3");
        reveal_strlit("4");
        reveal_strlit("5");
        reveal_strlit("6");
        reveal_strlit("7");
        reveal_strlit("8");
        reveal_strlit("9");
    }
    let text = if value == 0 {
        "0"
    } else if value == 1 {
        "1"
    } else if value == 2 {
        "2"
    } else if value == 3 {
        "3"
    } else if value == 4 {
        "4"
    } else if value == 5 {
        "5"
    } else if value == 6 {
        "6"
    } else if value == 7 {
        "7"
    } else if value == 8 {
        "8"
    } else {
        "9"
    };
    assert(text@ =~= seq![digit_char(value as int)]);
    text
}

/// Tells whether the characters of `chars` from `from` up to `to` are all
/// digits.
fn digits_only(chars: &Vec<char>, from: usize, to: usize) -> (out: bool)
    requires
        from <= to <= chars@.len(),
    ensures
        out == all_digits(chars@.subrange(from as int, to as int)),
{
    let ghost part = chars@.subrange(from as int, to as int);
    let mut i: usize = from;
    while i < to
        invariant
            from <= i <= to <= chars@.len(),
            part == chars@.subrange(from as int, to as int),
            forall|j: int| 0 <= j < i - from ==> is_digit(#[trigger] part[j]),
        decreases to - i,
    {
        if digit_of(chars[i]).is_none() {
            assert(!is_digit(part[i - from]));
            return false;
        }
        i = i + 1;
    }
    true
}

/// The number that the digits of `chars` from `from` up to `to` stand for;
/// none exactly when it is greater than `limit`.
fn digits_number(chars: &Vec<char>, from: usize, to: usize, limit: u64) -> (out: Option<u64>)
    requires
        from <= to <= chars@.len(),
        all_digits(chars@.subrange(from as int, to as int)),
        limit <= 0x0fff_ffff_ffff_ffff,
    ensures
        out.is_some() == (digits_value(chars@.subrange(from as int, to as int)) <= limit),
        out.is_some() ==> out.unwrap() == digits_value(chars@.subrange(from as int, to as int)),
{
    let ghost part = chars@.subrange(from as int, to as int);
    let mut value: u64 = 0;
    let mut i: usize = from;
    while i < to
        invariant
            from <= i <= to <= chars@.len(),
            part == chars@.subrange(from as int, to as int),
            all_digits(part),
            value == digits_value(part.subrange(0, i - from)),
            value <= limit,
            limit <= 0x0fff_ffff_ffff_ffff,
        decreases to - i,
    {
        proof {
            lemma_digits_value_push(part, i - from);
            assert(is_digit(part[i - from]));
        }
        let digit = digit_of(chars[i]).unwrap();
        value = value * 10 + digit as u64;
        if value > limit {
            proof {
                lemma_digits_value_grows(part, i - from + 1);
            }
            return None;
        }
        i = i + 1;
    }
    assert(part.subrange(0, to - from) =~= part);
    Some(value)
}

/// Place of the first `mark` among the characters of `chars` from `from` up
/// to `to`; `to` where there is none.
fn find_mark(chars: &Vec<char>, mark: char, from: usize, to: usize) -> (out: usize)
    requires
        from <= to <= chars@.len(),
    ensures
        from <= out <= to,
        out - from == next_mark(chars@.subrange(from as int, to as int), mark, 0),
{
    let ghost part = chars@.subrange(from as int, to as int);
    let mut i: usize = from;
    while i < to
        invariant
            from <= i <= to <= chars@.len(),
            part == chars@.subrange(from as int, to as int),
            next_mark(part, mark, 0) == next_mark(part, mark, i - from),
        decreases to - i,
    {
        if chars[i] == mark {
            return i;
        }
        i = i + 1;
    }
    i
}

/// Reads a whole number of thirty-two bits: an optional sign, then one or
/// more digits.
pub fn parse_i32(text: &str) -> (out: Result<i32, IntError>)
    ensures
        out == i32_text(text@),
{
    let chars = chars_of(text);
    let len = chars.len();
    if len == 0 {
        return Err(IntError::Empty);
    }
    let minus = chars[0] == '-';
    let start: usize = if minus || chars[0] == '+' {
        1
    } else {
        0
    };
    assert(chars@.subrange(start as int, len as int) =~= unsigned(text@));
    if start == len || !digits_only(&chars, start, len) {
        return Err(IntError::InvalidDigit);
    }
    match digits_number(&chars, start, len, 0x8000_0000) {
        None => if minus {
            Err(IntError::NegOverflow)
        } else {
            Err(IntError::PosOverflow)
        },
        Some(size) => if minus {
            Ok((-(size as i64)) as i32)
        } else if size > 0x7fff_ffff {
            Err(IntError::PosOverflow)
        } else {
            Ok(size as i32)
        },
    }
}

/// The millionths that the digits of `chars` from `from` up to `to`, which
/// follow a point, stand for.
fn fraction_number(chars: &Vec<char>, from: usize, to: usize) -> (out: u64)
    requires
        from <= to <= chars@.len(),
        all_digits(chars@.subrange(from as int, to as int)),
    ensures
        out == fraction_value(chars@.subrange(from as int, to as int)),
        out < 1_000_000,
{
    let ghost part = chars@.subrange(from as int, to as int);
    let count: usize = if to - from >= 6 {
        6
    } else {
        to - from
    };
    let ghost head = part.subrange(0, count as int);
    assert(head =~= chars@.subrange(from as int, from + count));
    assert(all_digits(head)) by {
        assert forall|j: int| 0 <= j < head.len() implies is_digit(#[trigger] head[j]) by {
            assert(head[j] == part[j]);
        }
    }
    proof {
        lemma_pow10_small(0);
    }
    let total = chars.len();
    let mut value: u64 = 0;
    let mut i: usize = 0;
    while i < count
        invariant
            i <= count <= 6,
            from + count <= chars@.len() == total,
            head == chars@.subrange(from as int, from + count),
            all_digits(head),
            value == digits_value(head.subrange(0, i as int)),
            value < pow10(i as nat),
            pow10(i as nat) <= 1_000_000,
        decreases count - i,
    {
        proof {
            lemma_digits_value_push(head, i as int);
            assert(is_digit(head[i as int]));
            lemma_pow10_small((i + 1) as nat);
        }
        let digit = digit_of(chars[from + i]).unwrap();
        value = value * 10 + digit as u64;
        i = i + 1;
    }
    assert(head.subrange(0, count as int) =~= head);
    let mut left: usize = count;
    while left < 6
        invariant
            count <= left <= 6,
            value == digits_value(head) * pow10((left - count) as nat),
            value < pow10(left as nat),
            pow10(left as nat) <= 1_000_000,
        decreases 6 - left,
    {
        proof {
            lemma_pow10_small((left + 1) as nat);
            assert(pow10((left + 1 - count) as nat) == 10 * pow10((left - count) as nat));
            assert(digits_value(head) * (10 * pow10((left - count) as nat)) == 10 * (digits_value(
                head,
            ) * pow10((left - count) as nat))) by (nonlinear_arith);
        }
        value = value * 10;
        left = left + 1;
    }
    proof {
        lemma_pow10_small(6);
        if to - from >= 6 {
            assert(pow10(0) == 1);
            assert(value == digits_value(head) * 1);
            assert(head == part.subrange(0, 6));
        } else {
            assert(head =~= part);
            assert(count == part.len());
        }
    }
    value
}

/// The first powers of ten.
pub proof fn lemma_pow10_small(n: nat)
    requires
        n <= 6,
    ensures
        n > 0 ==> pow10(n) == 10 * pow10((n - 1) as nat),
        pow10(0) == 1,
        pow10(1) == 10,
        pow10(2) == 100,
        pow10(3) == 1_000,
        pow10(4) == 10_000,
        pow10(5) == 100_000,
        pow10(6) == 1_000_000,
        1 <= pow10(n) <= 1_000_000,
{
    reveal_with_fuel(pow10, 8);
}

/// Reads a decimal as millionths: an optional sign, digits, and optionally
/// a point and more digits, with at least one digit in all. Digits past the
/// sixth after the point are cut. A decimal too large to hold is refused
/// like a text that is none.
pub fn parse_decimal(text: &str) -> (out: Result<i64, DecimalError>)
    ensures
        out == decimal_text(text@),
{
    let chars = chars_of(text);
    let len = chars.len();
    if len == 0 {
        return Err(DecimalError::Empty);
    }
    let minus = chars[0] == '-';
    let start: usize = if minus || chars[0] == '+' {
        1
    } else {
        0
    };
    let ghost body = chars@.subrange(start as int, len as int);
    assert(body =~= unsigned(text@));
    let point = find_mark(&chars, '.', start, len);
    let after: usize = if point < len {
        point + 1
    } else {
        len
    };
    assert(chars@.subrange(start as int, point as int) =~= whole_part(text@));
    assert(chars@.subrange(after as int, len as int) =~= fraction_part(text@));
    if (point - start) + (len - after) == 0 {
        return Err(DecimalError::Invalid);
    }
    if !digits_only(&chars, start, point) || !digits_only(&chars, after, len) {
        return Err(DecimalError::Invalid);
    }
    let fraction = fraction_number(&chars, after, len);
    match digits_number(&chars, start, point, 9_223_372_036_854) {
        None => Err(DecimalError::Invalid),
        Some(whole) => {
            let size: i128 = (whole as i128) * 1_000_000 + (fraction as i128);
            let value: i128 = if minus {
                -size
            } else {
                size
            };
            if value > i64::MAX as i128 || value < i64::MIN as i128 {
                Err(DecimalError::Invalid)
            } else {
                Ok(value as i64)
            }
        },
    }
}

/// The digits of `value`.
pub fn render_nat(value: u64) -> (out: String)
    ensures
        out@ == nat_text(value as nat),
    decreases value,
{
    if value < 10 {
        String::from_str(digit_text(value as u8))
    } else {
        let mut text = render_nat(value / 10);
        text.append(digit_text((value % 10) as u8));
        text
    }
}

/// A whole number as text.
pub fn render_int(value: i64) -> (out: String)
    ensures
        out@ == whole_text(value as int),
{
    if value < 0 {
        proof {
            reveal_strlit("-");
        }
        let size: u64 = (-(value as i128)) as u64;
        let mut text = String::from_str("-");
        text.append(render_nat(size).as_str());
        assert(text@ =~= seq!['-'] + nat_text((-value) as nat));
        text
    } else {
        render_nat(value as u64)
    }
}

/// The digits after the point for `millionths`.
fn render_places(millionths: u64) -> (out: String)
    requires
        millionths < 1_000_000,
    ensures
        out@ == places_text(millionths as nat, 6),
{
    proof {
        lemma_pow10_small(6);
        assert(Seq::<char>::empty() + places_text(millionths as nat, 6) =~= places_text(
            millionths as nat,
            6,
        ));
    }
    let mut text = String::new();
    let mut rest: u64 = millionths;
    let mut unit: u64 = 100_000;
    let mut places: u8 = 6;
    while places > 0 && rest > 0
        invariant
            places <= 6,
            places > 0 ==> unit == pow10((places - 1) as nat),
            rest < pow10(places as nat),
            text@ + places_text(rest as nat, places as nat) == places_text(millionths as nat, 6),
        decreases places,
    {
        proof {
            lemma_pow10_small(places as nat);
            lemma_pow10_small((places - 1) as nat);
            assert(rest / unit < 10) by (nonlinear_arith)
                requires
                    rest < 10 * unit,
                    unit > 0,
            ;
        }
        let ghost before = text@;
        text.append(digit_text((rest / unit) as u8));
        proof {
            assert(before + (seq![digit_char((rest / unit) as int)] + places_text(
                (rest % unit) as nat,
                (places - 1) as nat,
            )) =~= text@ + places_text((rest % unit) as nat, (places - 1) as nat));
        }
        rest = rest % unit;
        places = places - 1;
        if places > 0 {
            proof {
                lemma_pow10_small(places as nat);
            }
            unit = unit / 10;
        }
    }
    proof {
        lemma_pow10_small(6);
        assert(places_text(rest as nat, places as nat) =~= Seq::<char>::empty());
        assert(text@ + Seq::<char>::empty() =~= text@);
    }
    text
}

/// Millionths as a decimal.
pub fn render_micro(value: i64) -> (out: String)
    ensures
        out@ == micro_text(value as int),
{
    proof {
        reveal_strlit("-");
        reveal_strlit("");
        reveal_strlit(".");
    }
    let size: u64 = if value < 0 {
        (-(value as i128)) as u64
    } else {
        value as u64
    };
    let mut text = if value < 0 {
        String::from_str("-")
    } else {
        String::from_str("")
    };
    let ghost sign = text@;
    text.append(render_nat(size / 1_000_000).as_str());
    if size % 1_000_000 != 0 {
        text.append(".");
        text.append(render_places(size % 1_000_000).as_str());
        assert(text@ =~= sign + nat_text((size / 1_000_000) as nat) + seq!['.'] + places_text(
            (size % 1_000_000) as nat,
            6,
        ));
    }
    assert(sign =~= if value < 0 {
        seq!['-']
    } else {
        Seq::<char>::empty()
    });
    text
}

} // verus!
