//! Integer arguments written in decimal or with a `0x` prefix in hexadecimal.

use vstd::prelude::*;

use crate::text::{debug_quoted, decimal, decimal_char, hex2, hex_upper, hex_upper_char, is_white_space, str_debug, trim, trim_end, trim_start, trim_str};

verus! {

/// Why a run of digits is not an unsigned integer, as std's `IntErrorKind` tells it.
#[derive(Clone, Copy, Debug, PartialEq, Eq, Structural)]
pub enum IntErrorKind {
    Empty,
    InvalidDigit,
    PosOverflow,
}

/// What std's `ParseIntError` displays for each kind.
pub open spec fn int_error_message(kind: IntErrorKind) -> Seq<char> {
    match kind {
        IntErrorKind::Empty => "cannot parse integer from empty string"@,
        IntErrorKind::InvalidDigit => "invalid digit found in string"@,
        IntErrorKind::PosOverflow => "number too large to fit in target type"@,
    }
}

/// The value of `c` as a digit in base 10 or 16, as `char::to_digit` gives it.
pub open spec fn digit_value(c: char, radix: nat) -> Option<nat> {
    let u = c as u32;
    if 0x30 <= u <= 0x39 {
        Some((u - 0x30) as nat)
    } else if radix == 16 && 0x61 <= u <= 0x66 {
        Some((u - 0x61 + 10) as nat)
    } else if radix == 16 && 0x41 <= u <= 0x46 {
        Some((u - 0x41 + 10) as nat)
    } else {
        None
    }
}

/// Reads the digits of `s` from the left into `acc`; the first character that is no
/// digit, or the first digit that takes the value past `u32::MAX`, ends the reading.
pub open spec fn accumulate_digits(s: Seq<char>, radix: nat, acc: nat) -> Result<nat, IntErrorKind>
    decreases s.len(),
{
    if s.len() == 0 {
        Ok(acc)
    } else {
        match digit_value(s[0], radix) {
            None => Err(IntErrorKind::InvalidDigit),
            Some(d) => {
                let next = acc * radix + d;
                if next > u32::MAX {
                    Err(IntErrorKind::PosOverflow)
                } else {
                    accumulate_digits(s.drop_first(), radix, next)
                }
            },
        }
    }
}

/// `u32::from_str_radix(s, radix)`: an optional `+`, then at least one digit.
pub open spec fn u32_from_str_radix(s: Seq<char>, radix: nat) -> Result<u32, IntErrorKind> {
    if s.len() == 0 {
        Err(IntErrorKind::Empty)
    } else if s.len() == 1 && (s[0] == '+' || s[0] == '-') {
        Err(IntErrorKind::InvalidDigit)
    } else {
        let digits = if s[0] == '+' {
            s.drop_first()
        } else {
            s
        };
        match accumulate_digits(digits, radix, 0) {
            Ok(v) => Ok(v as u32),
            Err(e) => Err(e),
        }
    }
}

/// The digits after a `0x` or `0X` prefix, if `t` has one.
pub open spec fn hex_digits(t: Seq<char>) -> Option<Seq<char>> {
    if t.len() >= 2 && t[0] == '0' && (t[1] == 'x' || t[1] == 'X') {
        Some(t.skip(2))
    } else {
        None
    }
}

/// The value of an argument: white space around it is ignored, a `0x`/`0X` prefix
/// selects base 16, else base 10; the error message quotes the trimmed text.
pub open spec fn prefixed_u32(input: Seq<char>) -> Result<u32, Seq<char>> {
    let t = trim(input);
    match hex_digits(t) {
        Some(rest) => match u32_from_str_radix(rest, 16) {
            Ok(v) => Ok(v),
            Err(e) => Err("invalid hex value "@ + str_debug(t) + ": "@ + int_error_message(e)),
        },
        None => match u32_from_str_radix(t, 10) {
            Ok(v) => Ok(v),
            Err(e) => Err("invalid integer value "@ + str_debug(t) + ": "@ + int_error_message(e)),
        },
    }
}

/// A `u16` argument: a `prefixed_u32` value that fits.
pub open spec fn prefixed_u16(input: Seq<char>) -> Result<u16, Seq<char>> {
    match prefixed_u32(input) {
        Ok(v) => if v <= u16::MAX {
            Ok(v as u16)
        } else {
            Err("value "@ + str_debug(input) + " does not fit into u16"@)
        },
        Err(m) => Err(m),
    }
}

/// A `u8` argument: a `prefixed_u32` value that fits.
pub open spec fn prefixed_u8(input: Seq<char>) -> Result<u8, Seq<char>> {
    match prefixed_u32(input) {
        Ok(v) => if v <= u8::MAX {
            Ok(v as u8)
        } else {
            Err("value "@ + str_debug(input) + " does not fit into u8"@)
        },
        Err(m) => Err(m),
    }
}

fn int_error_text(kind: IntErrorKind) -> (r: &'static str)
    ensures
        r@ == int_error_message(kind),
{
    match kind {
        IntErrorKind::Empty => "cannot parse integer from empty string",
        IntErrorKind::InvalidDigit => "invalid digit found in string",
        IntErrorKind::PosOverflow => "number too large to fit in target type",
    }
}

fn digit(c: char, radix: u64) -> (r: Option<u64>)
    requires
        radix == 10 || radix == 16,
    ensures
        match digit_value(c, radix as nat) {
            Some(d) => r == Some(d as u64),
            None => r is None,
        },
{
    let u = c as u32;
    if 0x30 <= u && u <= 0x39 {
        Some((u - 0x30) as u64)
    } else if radix == 16 && 0x61 <= u && u <= 0x66 {
        Some((u - 0x61 + 10) as u64)
    } else if radix == 16 && 0x41 <= u && u <= 0x46 {
        Some((u - 0x41 + 10) as u64)
    } else {
        None
    }
}

/// `u32::from_str_radix` for base 10 and base 16.
pub fn u32_from_digits(s: &str, radix: u32) -> (r: Result<u32, IntErrorKind>)
    requires
        radix == 10 || radix == 16,
    ensures
        r == u32_from_str_radix(s@, radix as nat),
{
    let n = s.unicode_len();
    if n == 0 {
        return Err(IntErrorKind::Empty);
    }
    let first = s.get_char(0);
    if n == 1 && (first == '+' || first == '-') {
        return Err(IntErrorKind::InvalidDigit);
    }
    let start: usize = if first == '+' { 1 } else { 0 };
    let ghost digits = if first == '+' { s@.drop_first() } else { s@ };
    let r64 = radix as u64;
    let mut acc: u64 = 0;
    let mut i: usize = start;
    assert(digits =~= s@.skip(start as int));
    while i < n
        invariant
            n == s@.len(),
            start <= i <= n,
            r64 == radix,
            radix == 10 || radix == 16,
            acc <= u32::MAX,
            u32_from_str_radix(s@, radix as nat) == (match accumulate_digits(
                digits,
                radix as nat,
                0,
            ) {
                Ok(v) => Ok(v as u32),
                Err(e) => Err(e),
            }),
            accumulate_digits(digits, radix as nat, 0) == accumulate_digits(
                s@.skip(i as int),
                radix as nat,
                acc as nat,
            ),
        decreases n - i,
    {
        let c = s.get_char(i);
        assert(s@.skip(i as int)[0] == c);
        assert(s@.skip(i as int).drop_first() =~= s@.skip(i + 1));
        match digit(c, r64) {
            None => {
                return Err(IntErrorKind::InvalidDigit);
            },
            Some(d) => {
                assert(acc * r64 <= 16 * 0xffff_ffffu64) by (nonlinear_arith)
                    requires
                        acc <= 0xffff_ffffu64,
                        r64 <= 16,
                ;
                let next = acc * r64 + d;
                if next > 0xffff_ffffu64 {
                    return Err(IntErrorKind::PosOverflow);
                }
                acc = next;
            },
        }
        i = i + 1;
    }
    assert(s@.skip(n as int).len() == 0);
    Ok(acc as u32)
}

fn error_message(lead: &str, shown: &str, tail: &str) -> (r: String)
    ensures
        r@ == lead@ + str_debug(shown@) + tail@,
{
    let mut m = String::from_str(lead);
    let quoted = debug_quoted(shown);
    m.append(quoted.as_str());
    m.append(tail);
    m
}

/// Reads an integer argument in decimal, or in hexadecimal after `0x` or `0X`.
pub fn parse_prefixed_u32(input: &str) -> (r: Result<u32, String>)
    ensures
        match r {
            Ok(v) => prefixed_u32(input@) == Ok::<u32, Seq<char>>(v),
            Err(m) => prefixed_u32(input@) == Err::<u32, Seq<char>>(m@),
        },
{
    let trimmed = trim_str(input);
    let n = trimmed.unicode_len();
    let is_hex = n >= 2 && trimmed.get_char(0) == '0' && (trimmed.get_char(1) == 'x'
        || trimmed.get_char(1) == 'X');
    if is_hex {
        let rest = trimmed.substring_char(2, n);
        assert(rest@ =~= trimmed@.skip(2));
        match u32_from_digits(rest, 16) {
            Ok(v) => Ok(v),
            Err(e) => {
                let mut m = error_message("invalid hex value ", trimmed, ": ");
                m.append(int_error_text(e));
                Err(m)
            },
        }
    } else {
        match u32_from_digits(trimmed, 10) {
            Ok(v) => Ok(v),
            Err(e) => {
                let mut m = error_message("invalid integer value ", trimmed, ": ");
                m.append(int_error_text(e));
                Err(m)
            },
        }
    }
}

/// Reads a `u16` argument (a vendor id, a product id, a usage page, a usage).
pub fn parse_u16(input: &str) -> (r: Result<u16, String>)
    ensures
        match r {
            Ok(v) => prefixed_u16(input@) == Ok::<u16, Seq<char>>(v),
            Err(m) => prefixed_u16(input@) == Err::<u16, Seq<char>>(m@),
        },
{
    let value = parse_prefixed_u32(input)?;
    if value <= 0xffff {
        Ok(value as u16)
    } else {
        Err(error_message("value ", input, " does not fit into u16"))
    }
}

/// Reads a `u8` argument (a button mask).
pub fn parse_u8(input: &str) -> (r: Result<u8, String>)
    ensures
        match r {
            Ok(v) => prefixed_u8(input@) == Ok::<u8, Seq<char>>(v),
            Err(m) => prefixed_u8(input@) == Err::<u8, Seq<char>>(m@),
        },
{
    let value = parse_prefixed_u32(input)?;
    if value <= 0xff {
        Ok(value as u8)
    } else {
        Err(error_message("value ", input, " does not fit into u8"))
    }
}

proof fn lemma_accumulate_push(s: Seq<char>, c: char, radix: nat, acc: nat)
    ensures
        accumulate_digits(s.push(c), radix, acc) == match accumulate_digits(s, radix, acc) {
            Ok(v) => match digit_value(c, radix) {
                None => Err(IntErrorKind::InvalidDigit),
                Some(d) => if v * radix + d > u32::MAX {
                    Err(IntErrorKind::PosOverflow)
                } else {
                    Ok(v * radix + d)
                },
            },
            Err(e) => Err(e),
        },
    decreases s.len(),
{
    let t = s.push(c);
    if s.len() == 0 {
        reveal_with_fuel(accumulate_digits, 2);
        assert(t.drop_first() =~= Seq::<char>::empty());
    } else {
        assert(t.drop_first() =~= s.drop_first().push(c));
        assert(t[0] == s[0]);
        match digit_value(s[0], radix) {
            None => {},
            Some(d) => {
                let next = acc * radix + d;
                if next <= u32::MAX {
                    lemma_accumulate_push(s.drop_first(), c, radix, next);
                }
            },
        }
    }
}

proof fn lemma_decimal_digits(n: nat)
    ensures
        decimal(n).len() >= 1,
        forall|i: int|
            0 <= i < decimal(n).len() ==> 0x30 <= (#[trigger] decimal(n)[i]) as u32 <= 0x39,
        n <= u32::MAX ==> accumulate_digits(decimal(n), 10, 0) == Ok::<nat, IntErrorKind>(n),
    decreases n,
{
    if n < 10 {
        reveal_with_fuel(accumulate_digits, 2);
        assert(decimal(n).drop_first() =~= Seq::<char>::empty());
    } else {
        lemma_decimal_digits(n / 10);
        lemma_accumulate_push(decimal(n / 10), decimal_char(n % 10), 10, 0);
    }
}

/// A number written in decimal is read back as that number.
pub proof fn law_decimal_round_trip(n: u32)
    ensures
        prefixed_u32(decimal(n as nat)) == Ok::<u32, Seq<char>>(n),
{
    let t = decimal(n as nat);
    lemma_decimal_digits(n as nat);
    assert(!is_white_space(t[0]));
    assert(trim_start(t) == t);
    assert(!is_white_space(t.last()));
    assert(trim_end(t) == t);
    assert(trim(t) == t);
    if t.len() >= 2 {
        assert(t[1] != 'x' && t[1] != 'X');
    }
    assert(t[0] != '+' && t[0] != '-');
}

/// A `u16` written in decimal is read back as that `u16`.
pub proof fn law_decimal_round_trip_u16(n: u16)
    ensures
        prefixed_u16(decimal(n as nat)) == Ok::<u16, Seq<char>>(n),
{
    law_decimal_round_trip(n as u32);
}

proof fn lemma_hex_upper_digits(n: nat)
    ensures
        hex_upper(n).len() >= 1,
        forall|i: int|
            0 <= i < hex_upper(n).len() ==> {
                let u = (#[trigger] hex_upper(n)[i]) as u32;
                (0x30 <= u <= 0x39) || (0x41 <= u <= 0x46)
            },
        n <= u32::MAX ==> accumulate_digits(hex_upper(n), 16, 0) == Ok::<nat, IntErrorKind>(n),
    decreases n,
{
    if n < 16 {
        reveal_with_fuel(accumulate_digits, 2);
        assert(hex_upper(n).drop_first() =~= Seq::<char>::empty());
    } else {
        lemma_hex_upper_digits(n / 16);
        lemma_accumulate_push(hex_upper(n / 16), hex_upper_char(n % 16), 16, 0);
    }
}

/// A byte is read back from each way it is commonly written: in decimal, as
/// `0x` and two lower-case hexadecimal digits (`0x{:02x}`), and as `0X` and
/// upper-case hexadecimal digits (`0X{:X}`).
pub proof fn law_u8_round_trip(b: u8)
    ensures
        prefixed_u8(decimal(b as nat)) == Ok::<u8, Seq<char>>(b),
        prefixed_u8("0x"@ + hex2(b)) == Ok::<u8, Seq<char>>(b),
        prefixed_u8("0X"@ + hex_upper(b as nat)) == Ok::<u8, Seq<char>>(b),
{
    law_decimal_round_trip(b as u32);
    reveal_strlit("0x");
    reveal_strlit("0X");
    let lo = "0x"@ + hex2(b);
    assert(lo.len() == 4);
    assert(!is_white_space(lo[0]));
    assert(trim_start(lo) == lo);
    assert(!is_white_space(lo.last()));
    assert(trim_end(lo) == lo);
    assert(trim(lo) == lo);
    assert(lo.skip(2) =~= hex2(b));
    let h = hex2(b);
    assert(h.drop_first().drop_first() =~= Seq::<char>::empty());
    reveal_with_fuel(accumulate_digits, 3);
    assert(accumulate_digits(h, 16, 0) == Ok::<nat, IntErrorKind>(b as nat));
    let up = "0X"@ + hex_upper(b as nat);
    lemma_hex_upper_digits(b as nat);
    assert(up[up.len() - 1] == hex_upper(b as nat)[hex_upper(b as nat).len() - 1]);
    assert(!is_white_space(up[0]));
    assert(trim_start(up) == up);
    assert(!is_white_space(up.last()));
    assert(trim_end(up) == up);
    assert(trim(up) == up);
    assert(up.skip(2) =~= hex_upper(b as nat));
    assert(hex_upper(b as nat)[0] != '+' && hex_upper(b as nat)[0] != '-');
}

} // verus!
