//! Numbers written out as text.
use vstd::prelude::*;

verus! {

/// The character of a digit below sixteen, letters in small.
pub open spec fn digit(d: nat) -> char {
    if d < 10 {
        (48 + d) as char
    } else {
        (87 + d) as char
    }
}

/// The character of a digit below sixteen, letters in small.
pub fn digit_char(d: u64) -> (r: char)
    requires
        d < 16,
    ensures
        r == digit(d as nat),
{
    if d < 10 {
        (48 + d as u8) as char
    } else {
        (87 + d as u8) as char
    }
}

/// `n` in decimal, without leading zeros.
pub open spec fn decimal(n: nat) -> Seq<char>
    decreases n,
{
    if n < 10 {
        seq![digit(n)]
    } else {
        decimal(n / 10).push(digit(n % 10))
    }
}

/// `n` in decimal, with a minus sign in front of a negative number.
pub open spec fn signed(n: int) -> Seq<char> {
    if n < 0 {
        seq!['-'] + decimal((-n) as nat)
    } else {
        decimal(n as nat)
    }
}

/// `n` in decimal.
pub fn write_unsigned(n: u64) -> (r: String)
    ensures
        r@ == decimal(n as nat),
    decreases n,
{
    if n < 10 {
        let mut s = String::new();
        s.push(digit_char(n));
        assert(s@ =~= seq![digit(n as nat)]);
        s
    } else {
        let mut s = write_unsigned(n / 10);
        s.push(digit_char(n % 10));
        s
    }
}

/// `n` in decimal.
pub fn write_size(n: usize) -> (r: String)
    ensures
        r@ == decimal(n as nat),
{
    write_unsigned(n as u64)
}

/// `n` in decimal, signed.
pub fn write_signed(n: i64) -> (r: String)
    ensures
        r@ == signed(n as int),
{
    if n < 0 {
        let mut s = String::new();
        s.push('-');
        assert(s@ =~= seq!['-']);
        let size: u64 = if n == i64::MIN {
            0x8000_0000_0000_0000u64
        } else {
            (-n) as u64
        };
        s.push_str(&write_unsigned(size));
        s
    } else {
        write_unsigned(n as u64)
    }
}

/// `n` in decimal.
fn write_wide_unsigned(n: u128) -> (r: String)
    ensures
        r@ == decimal(n as nat),
    decreases n,
{
    if n < 10 {
        let mut s = String::new();
        s.push(digit_char(n as u64));
        assert(s@ =~= seq![digit(n as nat)]);
        s
    } else {
        let mut s = write_wide_unsigned(n / 10);
        s.push(digit_char((n % 10) as u64));
        s
    }
}

/// `n` in decimal, signed.
pub fn write_wide(n: i128) -> (r: String)
    ensures
        r@ == signed(n as int),
{
    if n < 0 {
        let mut s = String::new();
        s.push('-');
        assert(s@ =~= seq!['-']);
        let size: u128 = if n == i128::MIN {
            0x8000_0000_0000_0000_0000_0000_0000_0000u128
        } else {
            (-n) as u128
        };
        s.push_str(&write_wide_unsigned(size));
        s
    } else {
        write_wide_unsigned(n as u128)
    }
}

/// The last `width` hexadecimal digits of `n`, in small letters.
pub open spec fn hex_digits(n: nat, width: nat) -> Seq<char>
    decreases width,
{
    if width == 0 {
        Seq::empty()
    } else {
        hex_digits(n / 16, (width - 1) as nat).push(digit(n % 16))
    }
}

/// The last `width` hexadecimal digits of `n`, in small letters.
pub fn write_hex(n: u64, width: usize) -> (r: String)
    ensures
        r@ == hex_digits(n as nat, width as nat),
    decreases width,
{
    if width == 0 {
        String::new()
    } else {
        let mut s = write_hex(n / 16, width - 1);
        s.push(digit_char(n % 16));
        s
    }
}

/// Two hexadecimal digits tell the numbers below 256 apart.
pub proof fn lemma_hex_pair(a: nat, b: nat)
    requires
        a < 256,
        b < 256,
    ensures
        hex_digits(a, 2).len() == 2,
        hex_digits(a, 2) == hex_digits(b, 2) ==> a == b,
{
    reveal_with_fuel(hex_digits, 3);
    let x = hex_digits(a, 2);
    let y = hex_digits(b, 2);
    assert(x =~= seq![digit(a / 16 % 16), digit(a % 16)]);
    assert(y =~= seq![digit(b / 16 % 16), digit(b % 16)]);
    if x == y {
        assert(x[0] == y[0] && x[1] == y[1]);
        assert(a % 16 == b % 16);
        assert(a / 16 % 16 == b / 16 % 16);
    }
}

/// How many numbers `width` hexadecimal digits can write.
pub open spec fn sixteens(width: nat) -> nat
    decreases width,
{
    if width == 0 {
        1
    } else {
        16 * sixteens((width - 1) as nat)
    }
}

/// Hexadecimal digits tell apart the numbers that they can write.
pub proof fn lemma_hex_apart(a: nat, b: nat, width: nat)
    requires
        a < sixteens(width),
        b < sixteens(width),
    ensures
        hex_digits(a, width).len() == width,
        hex_digits(a, width) == hex_digits(b, width) ==> a == b,
    decreases width,
{
    if width > 0 {
        let w = (width - 1) as nat;
        lemma_hex_apart(a / 16, b / 16, w);
        lemma_hex_apart(b / 16, a / 16, w);
        let x = hex_digits(a, width);
        let y = hex_digits(b, width);
        if x == y {
            assert(x.last() == y.last());
            assert(x.drop_last() =~= hex_digits(a / 16, w));
            assert(y.drop_last() =~= hex_digits(b / 16, w));
        }
    }
}

} // verus!
