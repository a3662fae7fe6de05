//! Unsigned integer parsing in radix 10 or 16, with the grammar and error
//! kinds of the standard library's unsigned integer parsers: an optional
//! leading `+`, then one or more digits (hex letters in either case), the
//! value at most the target type's maximum.
use vstd::prelude::*;

verus! {

/// Why a number failed to parse.
#[derive(Debug, Clone, Copy, PartialEq, Eq, Structural)]
pub enum IntErrorKind {
    /// The input is empty.
    Empty,
    /// A byte is not a hex digit (or the sign stands alone).
    InvalidDigit,
    /// The value exceeds the target type's maximum.
    PosOverflow,
}

/// The value of byte `b` as a digit below `radix` (at most 16), if it is
/// one.
pub open spec fn digit(b: u8, radix: int) -> Option<int> {
    let v = if 0x30 <= b <= 0x39 {
        b - 0x30
    } else if 0x61 <= b <= 0x66 {
        b - 0x61 + 10
    } else if 0x41 <= b <= 0x46 {
        b - 0x41 + 10
    } else {
        99
    };
    if v < radix {
        Some(v)
    } else {
        None
    }
}

/// Read the digits of `s` left to right onto `acc`: the first non-digit is
/// `InvalidDigit`; a running value above `max` is `PosOverflow`.
pub open spec fn digits_value(s: Seq<u8>, radix: int, acc: int, max: int) -> Result<
    int,
    IntErrorKind,
>
    decreases s.len(),
{
    if s.len() == 0 {
        Ok(acc)
    } else {
        match digit(s[0], radix) {
            None => Err(IntErrorKind::InvalidDigit),
            Some(d) => if acc * radix + d > max {
                Err(IntErrorKind::PosOverflow)
            } else {
                digits_value(s.drop_first(), radix, acc * radix + d, max)
            },
        }
    }
}

/// The number that `s` spells in radix `radix`, at most `max`.
pub open spec fn number_value(s: Seq<u8>, radix: int, max: int) -> Result<int, IntErrorKind> {
    if s.len() == 0 {
        Err(IntErrorKind::Empty)
    } else {
        let digits = if s[0] == 0x2B {
            s.drop_first()
        } else {
            s
        };
        if digits.len() == 0 {
            Err(IntErrorKind::InvalidDigit)
        } else {
            digits_value(digits, radix, 0, max)
        }
    }
}

fn digit_value(b: u8, radix: u32) -> (r: Option<u32>)
    requires
        radix <= 16,
    ensures
        r matches Some(d) ==> digit(b, radix as int) == Some(d as int) && d < radix,
        r is None ==> digit(b, radix as int) is None,
{
    let v: u32 = if 0x30 <= b && b <= 0x39 {
        (b - 0x30) as u32
    } else if 0x61 <= b && b <= 0x66 {
        (b - 0x61 + 10) as u32
    } else if 0x41 <= b && b <= 0x46 {
        (b - 0x41 + 10) as u32
    } else {
        99
    };
    if v < radix {
        Some(v)
    } else {
        None
    }
}

/// Parse `s[start..]` as a number in radix `radix` of at most `max`.
pub fn parse_number_from(s: &[u8], start: usize, radix: u32, max: u32) -> (r: Result<
    u32,
    IntErrorKind,
>)
    requires
        start <= s@.len(),
        2 <= radix <= 16,
        max <= 0xFFFF,
    ensures
        r matches Ok(v) ==> number_value(s@.subrange(start as int, s@.len() as int), radix as int, max as int) == Ok::<
            int,
            IntErrorKind,
        >(v as int),
        r matches Err(e) ==> number_value(s@.subrange(start as int, s@.len() as int), radix as int, max as int)
            == Err::<int, IntErrorKind>(e),
{
    let ghost whole = s@.subrange(start as int, s@.len() as int);
    let n = s.len();
    if start == n {
        return Err(IntErrorKind::Empty);
    }
    let mut i = start;
    if s[i] == 0x2B {
        i = i + 1;
    }
    if i == n {
        return Err(IntErrorKind::InvalidDigit);
    }
    assert(s@.subrange(i as int, n as int) =~= (if whole[0] == 0x2B {
        whole.drop_first()
    } else {
        whole
    }));
    let mut acc: u32 = 0;
    while i < n
        invariant
            n == s@.len(),
            i <= n,
            acc <= max,
            max <= 0xFFFF,
            whole == s@.subrange(start as int, n as int),
            2 <= radix <= 16,
            number_value(whole, radix as int, max as int) == digits_value(
                s@.subrange(i as int, n as int),
                radix as int,
                acc as int,
                max as int,
            ),
        decreases n - i,
    {
        let ghost rest = s@.subrange(i as int, n as int);
        assert(rest.drop_first() =~= s@.subrange(i + 1, n as int));
        assert(rest.len() > 0 && rest[0] == s@[i as int]);
        match digit_value(s[i], radix) {
            None => {
                assert(digits_value(rest, radix as int, acc as int, max as int) == Err::<int, IntErrorKind>(
                    IntErrorKind::InvalidDigit,
                ));
                return Err(IntErrorKind::InvalidDigit);
            },
            Some(d) => {
                assert(acc * radix <= 0xFFFF * 16) by (nonlinear_arith)
                    requires
                        acc <= 0xFFFF,
                        radix <= 16,
                ;
                if acc * radix + d > max {
                    assert(digits_value(rest, radix as int, acc as int, max as int) == Err::<int, IntErrorKind>(
                        IntErrorKind::PosOverflow,
                    ));
                    return Err(IntErrorKind::PosOverflow);
                }
                acc = acc * radix + d;
            },
        }
        i = i + 1;
    }
    Ok(acc)
}

/// A successful parse never exceeds its maximum.
pub proof fn lemma_number_value_bounded(s: Seq<u8>, radix: int, max: int)
    requires
        max >= 0,
        radix >= 0,
    ensures
        number_value(s, radix, max) matches Ok(v) ==> 0 <= v <= max,
{
    if s.len() > 0 {
        let digits = if s[0] == 0x2B {
            s.drop_first()
        } else {
            s
        };
        lemma_digits_value_bounded(digits, radix, 0, max);
    }
}

proof fn lemma_digits_value_bounded(s: Seq<u8>, radix: int, acc: int, max: int)
    requires
        0 <= acc <= max,
        radix >= 0,
    ensures
        digits_value(s, radix, acc, max) matches Ok(v) ==> 0 <= v <= max,
    decreases s.len(),
{
    if s.len() > 0 {
        if let Some(d) = digit(s[0], radix) {
            if acc * radix + d <= max {
                assert(acc * radix + d >= 0) by (nonlinear_arith)
                    requires
                        acc >= 0,
                        radix >= 0,
                        d >= 0,
                ;
                lemma_digits_value_bounded(s.drop_first(), radix, acc * radix + d, max);
            }
        }
    }
}

/// `s` with every leading `0x` removed, then every leading `0X` removed.
pub open spec fn trim_hex_prefixes(s: Seq<u8>) -> Seq<u8> {
    trim_leading_pair(trim_leading_pair(s, 0x30, 0x78), 0x30, 0x58)
}

/// `s` with every leading copy of the byte pair `a b` removed.
pub open spec fn trim_leading_pair(s: Seq<u8>, a: u8, b: u8) -> Seq<u8>
    decreases s.len(),
{
    if s.len() >= 2 && s[0] == a && s[1] == b {
        trim_leading_pair(s.subrange(2, s.len() as int), a, b)
    } else {
        s
    }
}

/// The index at which `s[start..]` stops beginning with the pair `a b`.
pub fn skip_leading_pair(s: &[u8], start: usize, a: u8, b: u8) -> (end: usize)
    requires
        start <= s@.len(),
    ensures
        start <= end <= s@.len(),
        s@.subrange(end as int, s@.len() as int) == trim_leading_pair(
            s@.subrange(start as int, s@.len() as int),
            a,
            b,
        ),
{
    let n = s.len();
    let mut i = start;
    while n - i >= 2 && s[i] == a && s[i + 1] == b
        invariant
            n == s@.len(),
            start <= i <= n,
            trim_leading_pair(s@.subrange(i as int, n as int), a, b) == trim_leading_pair(
                s@.subrange(start as int, n as int),
                a,
                b,
            ),
        decreases n - i,
    {
        assert(s@.subrange(i as int, n as int).subrange(2, n - i) =~= s@.subrange(
            i + 2,
            n as int,
        ));
        i = i + 2;
    }
    i
}

} // verus!
