use vstd::prelude::*;
use vstd::string::StringExecFns;

verus! {

/// The character of the decimal digit `d`.
pub open spec fn digit_char(d: nat) -> char {
    if d == 0 {
        '0'
    } else if d == 1 {
        '1'
    } else if d == 2 {
        '2'
    } else if d == 3 {
        '3'
    } else if d == 4 {
        '4'
    } else if d == 5 {
        '5'
    } else if d == 6 {
        '6'
    } else if d == 7 {
        '7'
    } else if d == 8 {
        '8'
    } else {
        '9'
    }
}

/// The decimal representation of `n`, without leading zeros.
pub open spec fn decimal_digits(n: nat) -> Seq<char>
    decreases n,
{
    if n < 10 {
        seq![digit_char(n)]
    } else {
        decimal_digits(n / 10).push(digit_char(n % 10))
    }
}

fn digit_str(d: u128) -> (r: &'static str)
    requires
        d < 10,
    ensures
        r@ == seq![digit_char(d as nat)],
{
    proof {
        reveal_strlit("0");
        reveal_strlit("1");
        reveal_strlit("2");
        reveal_strlit("3");
        reveal_strlit("4");
        reveal_strlit("5");
        reveal_strlit("6");
        reveal_strlit("7");
        reveal_strlit("8");
        reveal_strlit("9");
    }
    if d == 0 {
        "0"
    } else if d == 1 {
        "1"
    } else if d == 2 {
        "2"
    } else if d == 3 {
        "3"
    } else if d == 4 {
        "4"
    } else if d == 5 {
        "5"
    } else if d == 6 {
        "6"
    } else if d == 7 {
        "7"
    } else if d == 8 {
        "8"
    } else {
        "9"
    }
}

/// Appends the decimal representation of `n` to `s`.
pub fn push_decimal(s: &mut String, n: u128)
    ensures
        final(s)@ == old(s)@ + decimal_digits(n as nat),
    decreases n,
{
    if n >= 10 {
        push_decimal(s, n / 10);
    }
    s.append(digit_str(n % 10));
    proof {
        if n >= 10 {
            assert(decimal_digits(n as nat) == decimal_digits((n / 10) as nat).push(digit_char((n % 10) as nat)));
        }
    }
    assert(final(s)@ =~= old(s)@ + decimal_digits(n as nat));
}

/// The decimal representation of `n`.
pub fn to_decimal_string(n: u128) -> (r: String)
    ensures
        r@ == decimal_digits(n as nat),
{
    let mut s = String::new();
    push_decimal(&mut s, n);
    assert(s@ =~= decimal_digits(n as nat));
    s
}

} // verus!

verus! {

/// Scale of `Decimal`: its value is `atomics / DECIMAL_FRACTIONAL`.
pub const DECIMAL_FRACTIONAL: u128 = 1_000_000_000_000_000_000;

/// Number of fractional digits of `Decimal`.
pub const DECIMAL_PLACES: u32 = 18;

/// The last `width` digits of `n`, zero-padded on the left.
pub open spec fn padded_digits(n: nat, width: nat) -> Seq<char>
    decreases width,
{
    if width == 0 {
        Seq::empty()
    } else {
        padded_digits(n / 10, (width - 1) as nat).push(digit_char(n % 10))
    }
}

/// The fractional digits `n` of `width` places with trailing zeros removed.
pub open spec fn trimmed_fraction(n: nat, width: nat) -> Seq<char>
    decreases width,
{
    if width > 0 && n % 10 == 0 {
        trimmed_fraction(n / 10, (width - 1) as nat)
    } else {
        padded_digits(n, width)
    }
}

/// Non-negative fixed-point decimal with 18 fractional digits.
#[derive(PartialEq, Eq, Structural, Clone, Copy, Debug)]
pub struct Decimal {
    pub atomics: u128,
}

impl Decimal {
    /// The text form: the integer part, then, when the fraction is not zero,
    /// a dot and the fractional digits without trailing zeros.
    pub open spec fn text(self) -> Seq<char> {
        let int_part = decimal_digits(self.atomics as nat / DECIMAL_FRACTIONAL as nat);
        let frac = self.atomics as nat % DECIMAL_FRACTIONAL as nat;
        if frac == 0 {
            int_part
        } else {
            int_part + "."@ + trimmed_fraction(frac, DECIMAL_PLACES as nat)
        }
    }

    /// The decimal with exactly this many atomic units.
    pub fn raw(atomics: u128) -> (r: Decimal)
        ensures
            r.atomics == atomics,
    {
        Decimal { atomics }
    }

    /// Exactly `x` percent.
    pub fn percent(x: u64) -> (r: Decimal)
        ensures
            r.atomics * 100 == x * DECIMAL_FRACTIONAL,
    {
        Decimal { atomics: x as u128 * 10_000_000_000_000_000 }
    }

    /// Exactly `x` per mille.
    pub fn permille(x: u64) -> (r: Decimal)
        ensures
            r.atomics * 1000 == x * DECIMAL_FRACTIONAL,
    {
        Decimal { atomics: x as u128 * 1_000_000_000_000_000 }
    }

    /// `numerator / denominator`, rounded down to 18 places; `None` when the
    /// denominator is zero or the value does not fit.
    pub fn checked_from_ratio(numerator: u128, denominator: u128) -> (r: Option<Decimal>)
        ensures
            denominator == 0 || numerator * DECIMAL_FRACTIONAL > u128::MAX ==> r is None,
            denominator != 0 && numerator * DECIMAL_FRACTIONAL <= u128::MAX ==> r == Some(
                Decimal { atomics: ((numerator * DECIMAL_FRACTIONAL) / (denominator as int)) as u128 },
            ),
    {
        if denominator == 0 {
            return None;
        }
        match numerator.checked_mul(DECIMAL_FRACTIONAL) {
            Some(scaled) => Some(Decimal { atomics: scaled / denominator }),
            None => None,
        }
    }

    /// The text form of this decimal, as in `text`.
    pub fn to_decimal_string(&self) -> (r: String)
        ensures
            r@ == self.text(),
    {
        let mut s = to_decimal_string(self.atomics / DECIMAL_FRACTIONAL);
        let frac = self.atomics % DECIMAL_FRACTIONAL;
        if frac != 0 {
            s.append(".");
            let mut f: u128 = frac;
            let mut w: u32 = DECIMAL_PLACES;
            while w > 0 && f % 10 == 0
                invariant
                    w <= DECIMAL_PLACES,
                    trimmed_fraction(f as nat, w as nat) == trimmed_fraction(frac as nat, DECIMAL_PLACES as nat),
                decreases w,
            {
                f = f / 10;
                w = w - 1;
            }
            push_padded(&mut s, f, w);
            assert(s@ =~= self.text());
        }
        s
    }
}

/// Appends the last `width` digits of `n`, zero-padded, to `s`.
fn push_padded(s: &mut String, n: u128, width: u32)
    ensures
        final(s)@ == old(s)@ + padded_digits(n as nat, width as nat),
    decreases width,
{
    if width > 0 {
        push_padded(s, n / 10, width - 1);
        s.append(digit_str(n % 10));
    }
    assert(final(s)@ =~= old(s)@ + padded_digits(n as nat, width as nat));
}

} // verus!
