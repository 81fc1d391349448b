//! Decimal text of integers, and quotients shown with two decimals.
use vstd::prelude::*;

verus! {

/// The character of a decimal digit.
pub open spec fn digit_char(d: nat) -> char {
    seq!['0', '1', '2', '3', '4', '5', '6', '7', '8', '9'][d as int]
}

/// The decimal text of `n`, most significant digit first, without leading zeros.
pub open spec fn decimal(n: nat) -> Seq<char>
    decreases n,
{
    if n < 10 {
        seq![digit_char(n)]
    } else {
        decimal(n / 10).push(digit_char(n % 10))
    }
}

/// `v / d` rounded to the nearest integer, halves rounded up.
pub open spec fn rounded_div(v: nat, d: nat) -> nat
    recommends
        d > 0,
{
    (v / d + (if 2 * (v % d) >= d { 1nat } else { 0nat })) as nat
}

/// A count of hundredths shown as a decimal with exactly two places.
pub open spec fn hundredths_text(h: nat) -> Seq<char> {
    decimal(h / 100) + seq!['.', digit_char((h % 100) / 10), digit_char(h % 10)]
}

/// `v / (100 * per_hundredth)` rounded to two decimal places, halves up.
pub open spec fn two_decimals(v: nat, per_hundredth: nat) -> Seq<char>
    recommends
        per_hundredth > 0,
{
    hundredths_text(rounded_div(v, per_hundredth))
}

/// Appends the character of the digit `d` to `out`.
fn push_digit(out: &mut String, d: u64)
    requires
        d < 10,
    ensures
        final(out)@ == old(out)@.push(digit_char(d as nat)),
{
    let digits = "0123456789";
    proof {
        reveal_strlit("0123456789");
    }
    let one = digits.substring_char(d as usize, d as usize + 1);
    assert(one@ =~= seq![digit_char(d as nat)]);
    out.append(one);
}

/// The decimal text of `n`.
pub fn decimal_text(n: u64) -> (r: String)
    ensures
        r@ == decimal(n as nat),
{
    let mut rev: Vec<u64> = Vec::new();
    let mut m: u64 = n;
    while m >= 10
        invariant
            m <= n,
            forall|i: int| 0 <= i < rev.len() ==> rev[i] < 10,
            decimal(n as nat) == decimal(m as nat) + Seq::new(
                rev.len() as nat,
                |i: int| digit_char(rev[rev.len() - 1 - i] as nat),
            ),
        decreases m,
    {
        let d = m % 10;
        let ghost old_rev = rev@;
        rev.push(d);
        assert(decimal(m as nat) == decimal((m / 10) as nat).push(digit_char(d as nat)));
        assert(decimal(m as nat) + Seq::new(
            old_rev.len() as nat,
            |i: int| digit_char(old_rev[old_rev.len() - 1 - i] as nat),
        ) =~= decimal((m / 10) as nat) + Seq::new(
            rev.len() as nat,
            |i: int| digit_char(rev[rev.len() - 1 - i] as nat),
        ));
        m = m / 10;
    }
    let mut out = String::new();
    push_digit(&mut out, m);
    let mut k: usize = rev.len();
    while k > 0
        invariant
            k <= rev.len(),
            forall|i: int| 0 <= i < rev.len() ==> rev[i] < 10,
            decimal(n as nat) == out@ + Seq::new(
                k as nat,
                |i: int| digit_char(rev[k - 1 - i] as nat),
            ),
        decreases k,
    {
        let ghost before = out@;
        push_digit(&mut out, rev[k - 1]);
        assert(before + Seq::new(k as nat, |i: int| digit_char(rev[k - 1 - i] as nat)) =~= out@
            + Seq::new((k - 1) as nat, |i: int| digit_char(rev[k - 2 - i] as nat)));
        k = k - 1;
    }
    assert(out@ + Seq::new(0nat, |i: int| digit_char(rev[0 - 1 - i] as nat)) =~= out@);
    out
}

/// `v / (100 * per_hundredth)` with two decimal places, rounded to the nearest
/// hundredth with halves rounded up (`1_500_000` over `10_000` is "1.50").
pub fn two_decimals_text(v: u64, per_hundredth: u64) -> (r: String)
    requires
        per_hundredth > 0,
    ensures
        r@ == two_decimals(v as nat, per_hundredth as nat),
{
    let q = v / per_hundredth;
    let rem = v % per_hundredth;
    let h: u64 = if rem >= per_hundredth - rem {
        assert(per_hundredth >= 2);
        assert(q * per_hundredth + rem == v) by {
            vstd::arithmetic::div_mod::lemma_fundamental_div_mod(v as int, per_hundredth as int);
        }
        assert(2 * q <= v) by (nonlinear_arith)
            requires
                q * per_hundredth + rem == v,
                per_hundredth >= 2,
                rem >= 0,
        ;
        q + 1
    } else {
        q
    };
    assert(h as nat == rounded_div(v as nat, per_hundredth as nat));
    let mut out = decimal_text(h / 100);
    proof {
        reveal_strlit(".");
    }
    out.append(".");
    push_digit(&mut out, (h % 100) / 10);
    push_digit(&mut out, h % 10);
    assert(out@ =~= hundredths_text(h as nat));
    out
}

} // verus!
