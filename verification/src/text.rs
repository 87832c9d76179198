//! Numerals: how numbers are written out in the rendered text.

use vstd::prelude::*;
use vstd::string::*;

verus! {

/// The character that stands for the digit `d` in bases up to sixteen,
/// lower case above nine.
pub open spec fn digit_char(d: nat) -> char {
    if d == 0 {
        '0'
    } else if d == 1 {
        '1'
    } else if d == 2 {
        '2'
    } else if d == 3 {
        '3'
    } else if d == 4 {
        '4'
    } else if d == 5 {
        '5'
    } else if d == 6 {
        '6'
    } else if d == 7 {
        '7'
    } else if d == 8 {
        '8'
    } else if d == 9 {
        '9'
    } else if d == 10 {
        'a'
    } else if d == 11 {
        'b'
    } else if d == 12 {
        'c'
    } else if d == 13 {
        'd'
    } else if d == 14 {
        'e'
    } else {
        'f'
    }
}

/// The digits of `n` in the given base, most significant first, without
/// leading zeros; zero is written as a single `0`.
pub open spec fn numeral(n: nat, base: nat) -> Seq<char>
    recommends
        2 <= base <= 16,
    decreases n,
{
    if base < 2 || n < base {
        seq![digit_char(n)]
    } else {
        proof {
            assert(n / base < n) by (nonlinear_arith)
                requires
                    base >= 2,
                    n >= base,
            ;
        }
        numeral(n / base, base).push(digit_char(n % base))
    }
}

/// `n` written in decimal.
pub open spec fn decimal(n: nat) -> Seq<char> {
    numeral(n, 10)
}

/// The last `width` digits of `n` in the given base, with zeros in front
/// where `n` has fewer.
pub open spec fn fixed_numeral(n: nat, base: nat, width: nat) -> Seq<char>
    recommends
        2 <= base <= 16,
    decreases width,
{
    if width == 0 {
        Seq::empty()
    } else {
        fixed_numeral(n / base, base, (width - 1) as nat).push(digit_char(n % base))
    }
}

/// `n` in two decimal digits.
pub open spec fn two_digits(n: nat) -> Seq<char> {
    fixed_numeral(n, 10, 2)
}

/// Each byte as a space and two hexadecimal digits.
pub open spec fn hex_bytes(bytes: Seq<u8>) -> Seq<char>
    decreases bytes.len(),
{
    if bytes.len() == 0 {
        Seq::empty()
    } else {
        hex_bytes(bytes.drop_last()) + " "@ + fixed_numeral(bytes.last() as nat, 16, 2)
    }
}

/// The bases in which numbers are written.
#[derive(Clone, Copy, Debug, PartialEq, Eq, Structural)]
pub enum Radix {
    Decimal,
    Hexadecimal,
}

impl Radix {
    /// The base as a number.
    pub open spec fn base(self) -> nat {
        match self {
            Radix::Decimal => 10,
            Radix::Hexadecimal => 16,
        }
    }

    /// The base as a number.
    pub fn value(&self) -> (base: u64)
        ensures
            base == self.base(),
    {
        match self {
            Radix::Decimal => 10,
            Radix::Hexadecimal => 16,
        }
    }
}

/// The one-character string of a digit.
pub(crate) fn digit_str(d: u64) -> (s: &'static str)
    requires
        d < 16,
    ensures
        s@ == seq![digit_char(d as nat)],
{
    proof {
        reveal_strlit("0");
        reveal_strlit("1");
        reveal_strlit("2");
        reveal_strlit("3");
        reveal_strlit("4");
        reveal_strlit("5");
        reveal_strlit("6");
        reveal_strlit("7");
        reveal_strlit("8");
        reveal_strlit("9");
        reveal_strlit("a");
        reveal_strlit("b");
        reveal_strlit("c");
        reveal_strlit("d");
        reveal_strlit("e");
        reveal_strlit("f");
    }
    let s = match d {
        0 => "0",
        1 => "1",
        2 => "2",
        3 => "3",
        4 => "4",
        5 => "5",
        6 => "6",
        7 => "7",
        8 => "8",
        9 => "9",
        10 => "a",
        11 => "b",
        12 => "c",
        13 => "d",
        14 => "e",
        _ => "f",
    };
    assert(s@ =~= seq![digit_char(d as nat)]);
    s
}

/// Appends the numeral of `n` to `out`.
pub fn push_numeral(out: &mut String, n: u64, radix: Radix)
    ensures
        final(out)@ == old(out)@ + numeral(n as nat, radix.base()),
    decreases n,
{
    let base: u64 = radix.value();
    if n >= base {
        push_numeral(out, n / base, radix);
    }
    out.append(digit_str(n % base));
    proof {
        let last = digit_char((n % base) as nat);
        if n >= base {
            assert(numeral(n as nat, base as nat) == numeral((n / base) as nat, base as nat).push(
                last,
            ));
            assert(out@ =~= old(out)@ + numeral((n / base) as nat, base as nat).push(last));
        }
    }
}

/// Appends the last `width` digits of `n` to `out`, with zeros in front
/// where `n` has fewer.
pub fn push_fixed(out: &mut String, n: u64, radix: Radix, width: u8)
    ensures
        final(out)@ == old(out)@ + fixed_numeral(n as nat, radix.base(), width as nat),
    decreases width,
{
    let base: u64 = radix.value();
    if width > 0 {
        push_fixed(out, n / base, radix, width - 1);
        out.append(digit_str(n % base));
    }
    assert(out@ =~= old(out)@ + fixed_numeral(n as nat, base as nat, width as nat));
}

/// Appends each byte to `out` as a space and two hexadecimal digits.
pub fn push_hex_bytes(out: &mut String, bytes: &[u8])
    ensures
        final(out)@ == old(out)@ + hex_bytes(bytes@),
{
    let mut i: usize = 0;
    assert(out@ =~= old(out)@ + hex_bytes(bytes@.take(0)));
    while i < bytes.len()
        invariant
            i <= bytes@.len(),
            out@ == old(out)@ + hex_bytes(bytes@.take(i as int)),
        decreases bytes@.len() - i,
    {
        out.append(" ");
        push_fixed(out, bytes[i] as u64, Radix::Hexadecimal, 2);
        proof {
            let done = bytes@.take(i as int);
            let next = bytes@.take(i + 1);
            assert(next.drop_last() =~= done);
            assert(next.last() == bytes@[i as int]);
            assert(out@ =~= old(out)@ + hex_bytes(next));
        }
        i = i + 1;
    }
    assert(bytes@.take(i as int) =~= bytes@);
}

/// A numeral has at least one digit.
pub proof fn lemma_numeral_not_empty(n: nat, base: nat)
    ensures
        numeral(n, base).len() > 0,
{
}

/// Two digits are what a number below a hundred takes when it is written
/// with a zero in front of a single digit.
pub proof fn lemma_two_digits(n: nat)
    requires
        n < 100,
    ensures
        two_digits(n).len() == 2,
        n >= 10 ==> two_digits(n) == decimal(n),
        n < 10 ==> two_digits(n) == seq!['0'] + decimal(n),
{
    reveal_with_fuel(fixed_numeral, 3);
    reveal_with_fuel(numeral, 2);
    assert(two_digits(n) =~= seq![digit_char(n / 10 % 10), digit_char(n % 10)]);
    if n >= 10 {
        assert(decimal(n) =~= seq![digit_char(n / 10), digit_char(n % 10)]);
    } else {
        assert(decimal(n) =~= seq![digit_char(n)]);
        assert(two_digits(n) =~= seq!['0'] + decimal(n));
    }
}

} // verus!
