//! The numerical base used when rendering byte counts in benchmark output.

use vstd::arithmetic::div_mod::{
    lemma_div_decreases, lemma_div_denominator, lemma_div_is_ordered, lemma_fundamental_div_mod,
    lemma_fundamental_div_mod_converse,
};
use vstd::arithmetic::mul::lemma_mul_inequality;
use vstd::prelude::*;
use vstd::string::StringExecFns;

use crate::counter::uint::MaxCountUInt;

verus! {

/// The numerical base for [`BytesCount`](crate::counter::BytesCount) values
/// in benchmark outputs.
///
/// A display-only setting: it selects how a byte rate is rendered and never
/// alters stored counts or accumulation arithmetic.
#[derive(Clone, Copy, Debug, PartialEq, Eq, Structural)]
#[non_exhaustive]
pub enum BytesFormat {
    /// Powers of 1000, starting with KB (kilobyte). This is the default.
    Decimal,
    /// Powers of 1024, starting with KiB (kibibyte).
    Binary,
}

impl Default for BytesFormat {
    fn default() -> (r: Self)
        ensures
            r == BytesFormat::Decimal,
    {
        BytesFormat::Decimal
    }
}

/// The k-th power of b.
pub open spec fn pow_spec(b: nat, k: nat) -> nat
    decreases k,
{
    if k == 0 {
        1
    } else {
        b * pow_spec(b, (k - 1) as nat)
    }
}

/// How many times b divides into n before the quotient falls below b: the
/// scale at which n is rendered.
pub open spec fn scale_index(n: nat, b: nat) -> nat
    decreases n,
    when b >= 2
    via scale_index_decreases
{
    if n < b {
        0
    } else {
        1 + scale_index(n / b, b)
    }
}

#[via_fn]
proof fn scale_index_decreases(n: nat, b: nat) {
    if b >= 2 && n >= b {
        lemma_div_decreases(n as int, b as int);
    }
}

/// The single character of a decimal digit.
pub open spec fn digit_str(d: nat) -> Seq<char> {
    if d == 0 {
        "0"@
    } else if d == 1 {
        "1"@
    } else if d == 2 {
        "2"@
    } else if d == 3 {
        "3"@
    } else if d == 4 {
        "4"@
    } else if d == 5 {
        "5"@
    } else if d == 6 {
        "6"@
    } else if d == 7 {
        "7"@
    } else if d == 8 {
        "8"@
    } else {
        "9"@
    }
}

/// The canonical decimal digit string of n, without leading zeros (a single
/// zero for n == 0).
pub open spec fn dec_digits(n: nat) -> Seq<char>
    decreases n,
    via dec_digits_decreases
{
    if n < 10 {
        digit_str(n)
    } else {
        dec_digits(n / 10) + digit_str(n % 10)
    }
}

#[via_fn]
proof fn dec_digits_decreases(n: nat) {
    if n >= 10 {
        lemma_div_decreases(n as int, 10);
    }
}

/// Appends the single character of a decimal digit.
fn push_digit(out: &mut String, d: u64)
    requires
        d < 10,
    ensures
        final(out)@ == old(out)@ + digit_str(d as nat),
{
    if d == 0 {
        out.append("0");
    } else if d == 1 {
        out.append("1");
    } else if d == 2 {
        out.append("2");
    } else if d == 3 {
        out.append("3");
    } else if d == 4 {
        out.append("4");
    } else if d == 5 {
        out.append("5");
    } else if d == 6 {
        out.append("6");
    } else if d == 7 {
        out.append("7");
    } else if d == 8 {
        out.append("8");
    } else {
        out.append("9");
    }
}

/// Appends the decimal digit string of n.
fn push_dec(out: &mut String, n: u64)
    ensures
        final(out)@ == old(out)@ + dec_digits(n as nat),
    decreases n,
{
    if n < 10 {
        push_digit(out, n);
    } else {
        proof {
            lemma_div_decreases(n as int, 10);
        }
        push_dec(out, n / 10);
        push_digit(out, n % 10);
        proof {
            assert(out@ =~= old(out)@ + dec_digits(n as nat));
        }
    }
}

impl BytesFormat {
    /// The numerical base this format scales by.
    pub open spec fn base_spec(self) -> nat {
        match self {
            BytesFormat::Decimal => 1000,
            BytesFormat::Binary => 1024,
        }
    }

    /// The unit suffix for the k-th power of this format's base.
    pub open spec fn suffix_spec(self, k: nat) -> Seq<char> {
        match self {
            BytesFormat::Decimal => if k == 0 {
                "B"@
            } else if k == 1 {
                "KB"@
            } else if k == 2 {
                "MB"@
            } else if k == 3 {
                "GB"@
            } else if k == 4 {
                "TB"@
            } else if k == 5 {
                "PB"@
            } else {
                "EB"@
            },
            BytesFormat::Binary => if k == 0 {
                "B"@
            } else if k == 1 {
                "KiB"@
            } else if k == 2 {
                "MiB"@
            } else if k == 3 {
                "GiB"@
            } else if k == 4 {
                "TiB"@
            } else if k == 5 {
                "PiB"@
            } else {
                "EiB"@
            },
        }
    }

    /// The exact string [`BytesFormat::render`] returns: the count divided by
    /// the largest power of the base that does not exceed it, with two
    /// truncated fractional digits when the remainder is nonzero, then a
    /// space and the unit suffix.
    pub open spec fn rendered_spec(self, count: nat) -> Seq<char> {
        let b = self.base_spec();
        let k = scale_index(count, b);
        let unit = pow_spec(b, k);
        let whole = count / unit;
        let frac = count % unit;
        if frac == 0 {
            dec_digits(whole) + " "@ + self.suffix_spec(k)
        } else {
            let h = frac * 100 / unit;
            dec_digits(whole) + "."@ + digit_str(h / 10) + digit_str(h % 10) + " "@
                + self.suffix_spec(k)
        }
    }

    /// The externally visible name of this variant.
    pub open spec fn name_spec(self) -> Seq<char> {
        match self {
            BytesFormat::Decimal => "decimal"@,
            BytesFormat::Binary => "binary"@,
        }
    }

    /// The externally visible name of this variant.
    pub fn name(&self) -> (r: String)
        ensures
            r@ == self.name_spec(),
    {
        match self {
            BytesFormat::Decimal => String::from_str("decimal"),
            BytesFormat::Binary => String::from_str("binary"),
        }
    }

    /// All variants, in declaration order.
    pub fn all() -> (r: Vec<BytesFormat>)
        ensures
            r@ == seq![BytesFormat::Decimal, BytesFormat::Binary],
    {
        let mut v: Vec<BytesFormat> = Vec::new();
        v.push(BytesFormat::Decimal);
        v.push(BytesFormat::Binary);
        proof {
            assert(v@ =~= seq![BytesFormat::Decimal, BytesFormat::Binary]);
        }
        v
    }

    /// The unit suffix for the k-th power of this format's base.
    fn suffix(self, k: u64) -> (r: &'static str)
        ensures
            r@ == self.suffix_spec(k as nat),
    {
        match self {
            BytesFormat::Decimal => if k == 0 {
                "B"
            } else if k == 1 {
                "KB"
            } else if k == 2 {
                "MB"
            } else if k == 3 {
                "GB"
            } else if k == 4 {
                "TB"
            } else if k == 5 {
                "PB"
            } else {
                "EB"
            },
            BytesFormat::Binary => if k == 0 {
                "B"
            } else if k == 1 {
                "KiB"
            } else if k == 2 {
                "MiB"
            } else if k == 3 {
                "GiB"
            } else if k == 4 {
                "TiB"
            } else if k == 5 {
                "PiB"
            } else {
                "EiB"
            },
        }
    }

    /// Renders a byte count scaled by this format's base — one million bytes
    /// as "1 MB" under `Decimal`, 1048576 bytes as "1 MiB" under `Binary` —
    /// never altering the count itself.
    pub fn render(self, count: MaxCountUInt) -> (r: String)
        ensures
            r@ == self.rendered_spec(count as nat),
    {
        let base: u64 = match self {
            BytesFormat::Decimal => 1000,
            BytesFormat::Binary => 1024,
        };
        let mut k: u64 = 0;
        let mut unit: u64 = 1;
        let mut m: u64 = count;
        while m >= base
            invariant
                base as nat == self.base_spec(),
                1 <= unit,
                k as int + 1 <= unit as int,
                unit as nat == pow_spec(base as nat, k as nat),
                m as int == count as int / unit as int,
                scale_index(count as nat, base as nat) == k as nat + scale_index(
                    m as nat,
                    base as nat,
                ),
            decreases m,
        {
            proof {
                lemma_fundamental_div_mod(count as int, unit as int);
                lemma_mul_inequality(base as int, m as int, unit as int);
                lemma_div_denominator(count as int, unit as int, base as int);
                lemma_div_decreases(m as int, base as int);
                lemma_mul_inequality(2, base as int, unit as int);
            }
            m = m / base;
            unit = unit * base;
            k = k + 1;
        }
        let whole: u64 = m;
        let frac: u64 = count % unit;
        let mut out = String::new();
        push_dec(&mut out, whole);
        if frac != 0 {
            proof {
                lemma_mul_inequality(frac as int + 1, unit as int, 100);
                lemma_div_is_ordered(frac as int * 100, unit as int * 100 - 1, unit as int);
                lemma_fundamental_div_mod_converse(
                    unit as int * 100 - 1,
                    unit as int,
                    99,
                    unit as int - 1,
                );
            }
            let h: u64 = ((frac as u128) * 100 / (unit as u128)) as u64;
            out.append(".");
            push_digit(&mut out, h / 10);
            push_digit(&mut out, h % 10);
        }
        out.append(" ");
        out.append(self.suffix(k));
        proof {
            assert(out@ =~= self.rendered_spec(count as nat));
        }
        out
    }
}

} // verus!
