//! File sizes in megabytes, as a text with one decimal.

use vstd::prelude::*;

use crate::text::{decimal, decimal_text, digit};

verus! {

/// The quotient of `a` and `b` as the nearest whole number, and as the even one of two
/// that are equally near.
pub open spec fn nearest_quotient(a: nat, b: nat) -> nat {
    if 2 * (a % b) > b || (2 * (a % b) == b && (a / b) % 2 == 1) {
        a / b + 1
    } else {
        a / b
    }
}

/// The distance between neighbouring double-precision numbers around `n`, but at least 1.
pub open spec fn spacing(n: nat) -> nat
    decreases n,
{
    if n < 0x20_0000_0000_0000 {
        1
    } else {
        2 * spacing(n / 2)
    }
}

/// The double-precision number next to `n`.
pub open spec fn nearest_double(n: nat) -> nat {
    nearest_quotient(n, spacing(n)) * spacing(n)
}

/// A size in bytes as tenths of a megabyte, by way of a double-precision number.
pub open spec fn megabyte_tenths(bytes: u64) -> nat {
    nearest_quotient(10 * nearest_double(bytes as nat), 0x10_0000)
}

/// A size in bytes as megabytes with one decimal.
pub open spec fn megabytes(bytes: u64) -> Seq<char> {
    decimal(megabyte_tenths(bytes) / 10).push('.').push(digit(megabyte_tenths(bytes) % 10))
}

fn nearest(a: u128, b: u128) -> (r: u128)
    requires
        0 < b < 0x1_0000_0000,
        a < 0x1_0000_0000_0000_0000_0000,
    ensures
        r == nearest_quotient(a as nat, b as nat),
{
    let quotient: u128 = a / b;
    let rest: u128 = a % b;
    assert(quotient <= a) by (nonlinear_arith)
        requires
            quotient == a / b,
            b > 0,
    ;
    if 2 * rest > b || (2 * rest == b && quotient % 2 == 1) {
        quotient + 1
    } else {
        quotient
    }
}

proof fn lemma_spacing_range(n: nat)
    requires
        n < 0x1_0000_0000_0000_0000,
    ensures
        1 <= spacing(n) <= 2048,
{
    reveal_with_fuel(spacing, 13);
}

fn spacing_of(n: u64) -> (r: u64)
    ensures
        r == spacing(n as nat),
        1 <= r <= 2048,
    decreases n,
{
    proof {
        lemma_spacing_range(n as nat);
    }
    if n < 0x20_0000_0000_0000 {
        1
    } else {
        proof {
            lemma_spacing_range((n / 2) as nat);
        }
        2 * spacing_of(n / 2)
    }
}

/// Writes a size in bytes as megabytes with one decimal.
pub fn megabytes_text(bytes: u64) -> (r: String)
    ensures
        r@ == megabytes(bytes),
{
    let step: u128 = spacing_of(bytes) as u128;
    let count: u128 = nearest(bytes as u128, step);
    assert(bytes as nat / step as nat <= bytes) by (nonlinear_arith)
        requires
            step >= 1,
    ;
    assert(count <= bytes + 1);
    assert(count * step <= 0x1_0000_0000_0000_0000 * 2048) by (nonlinear_arith)
        requires
            count <= 0x1_0000_0000_0000_0000,
            step <= 2048,
    ;
    let double: u128 = count * step;
    assert(double <= bytes + step) by {
        assert(count * step <= bytes + step) by (nonlinear_arith)
            requires
                step >= 1,
                count <= bytes as nat / step as nat + 1,
        ;
    }
    let tenths: u128 = nearest(10 * double, 0x10_0000);
    assert(tenths < 0x1_0000_0000_0000_0000);
    let whole: u64 = (tenths / 10) as u64;
    let part: u64 = (tenths % 10) as u64;
    let r = decimal_text(whole).concat(".").concat(decimal_text(part).as_str());
    proof {
        reveal_strlit(".");
        assert("."@ =~= seq!['.']);
        assert(decimal(part as nat) =~= seq![digit(part as nat)]);
        assert(r@ =~= megabytes(bytes));
    }
    r
}

/// A quotient is rounded to a nearest whole number, and to the even one of two that are
/// equally near.
pub proof fn law_quotients_are_rounded_to_the_nearest(a: nat, b: nat)
    requires
        b > 0,
    ensures
        2 * (a - nearest_quotient(a, b) * b) <= b,
        2 * (nearest_quotient(a, b) * b - a) <= b,
        2 * (a - nearest_quotient(a, b) * b) == b || 2 * (nearest_quotient(a, b) * b - a) == b
            ==> nearest_quotient(a, b) % 2 == 0,
{
    let q = a / b;
    let r = a % b;
    vstd::arithmetic::div_mod::lemma_fundamental_div_mod(a as int, b as int);
    assert(b * q + r == a);
    assert(q * b == b * q) by (nonlinear_arith);
    assert((q + 1) * b == b * q + b) by (nonlinear_arith);
    assert(r < b);
}

/// Up to two to the fifty-third every size is a double-precision number itself; beyond, the
/// numbers lie twice as far apart with each doubling.
pub proof fn law_spacing_doubles(n: nat)
    ensures
        n < 0x20_0000_0000_0000 ==> spacing(n) == 1 && nearest_double(n) == n,
        n >= 0x20_0000_0000_0000 ==> spacing(n) == 2 * spacing(n / 2),
        nearest_double(n) == nearest_quotient(n, spacing(n)) * spacing(n),
{
    if n < 0x20_0000_0000_0000 {
        let step = spacing(n);
        assert(step == 1);
        assert(n / 1nat == n && n % 1nat == 0);
        assert(nearest_quotient(n, step) == n);
        assert(n * step == n) by (nonlinear_arith)
            requires
                step == 1,
        ;
    }
}

/// A size is told in megabytes with one decimal: whole megabytes in decimal, a point, and one
/// digit for the tenths.
pub proof fn law_sizes_are_told_in_tenths(bytes: u64)
    ensures
        megabyte_tenths(bytes) == nearest_quotient(10 * nearest_double(bytes as nat), 1_048_576),
        megabytes(bytes) == decimal(megabyte_tenths(bytes) / 10) + seq!['.'] + decimal(
            megabyte_tenths(bytes) % 10,
        ),
{
    let tenth = megabyte_tenths(bytes) % 10;
    assert(decimal(tenth) =~= seq![digit(tenth)]);
    assert(megabytes(bytes) =~= decimal(megabyte_tenths(bytes) / 10) + seq!['.'] + decimal(tenth));
}

} // verus!
