//! Native prices derived from reserves: the quote reserve over the token
//! reserve, in base units of each, rendered as a decimal string truncated to
//! [`PRICE_DECIMALS`] places with trailing zeros dropped
//! (`"0.000000123"`).

use vstd::prelude::*;
use vstd::arithmetic::div_mod::lemma_fundamental_div_mod_converse;
use crate::primitives::{lemma_u256_bound, u256_max, U256};
use crate::text::{decimal, digit_char, owned, push_char};

verus! {

/// Digits shown after the decimal point, at most.
pub const PRICE_DECIMALS: usize = 18;

/// The first `n` digits after the point of `r / t`, for `r < t`, by long
/// division.
pub open spec fn frac_digits(r: nat, t: nat, n: nat) -> Seq<char>
    decreases n,
{
    if n == 0 {
        Seq::empty()
    } else {
        seq![digit_char((10 * r) / t)] + frac_digits((10 * r) % t, t, (n - 1) as nat)
    }
}

/// `s` without its trailing `'0'`s.
pub open spec fn trim_zeros(s: Seq<char>) -> Seq<char>
    decreases s.len(),
{
    if s.len() > 0 && s.last() == '0' {
        trim_zeros(s.drop_last())
    } else {
        s
    }
}

/// `q / t` (`t > 0`) in decimal: the whole part, then, unless they are all
/// zero, a point and the first [`PRICE_DECIMALS`] fractional digits without
/// trailing zeros.
pub open spec fn price_text(q: nat, t: nat) -> Seq<char> {
    let f = trim_zeros(frac_digits(q % t, t, PRICE_DECIMALS as nat));
    decimal(q / t) + if f.len() == 0 {
        Seq::<char>::empty()
    } else {
        "."@ + f
    }
}

/// One step of long division: `(10x / t, 10x % t)` for `x < t`.
fn long_div_step(x: &U256, t: &U256) -> (r: (u8, U256))
    requires
        x.value() < t.value(),
    ensures
        r.0 < 10,
        r.0 as nat == (10 * x.value()) / t.value(),
        r.1.value() == (10 * x.value()) % t.value(),
{
    proof {
        lemma_u256_bound(*t);
    }
    let y = match t.checked_sub(x) {
        Some(v) => v,
        None => return (0, *x),
    };
    let mut acc = U256::from_u128(0);
    let mut q: u8 = 0;
    let mut k: u8 = 0;
    while k < 10
        invariant
            k <= 10,
            q <= k,
            x.value() < t.value(),
            t.value() <= u256_max(),
            y.value() == t.value() - x.value(),
            acc.value() < t.value(),
            q * t.value() + acc.value() == k * x.value(),
        decreases 10 - k,
    {
        let ghost before_q = q as int;
        let ghost before_acc = acc.value() as int;
        match acc.checked_sub(&y) {
            Some(z) => {
                acc = z;
                q = q + 1;
                assert((before_q + 1) * t.value() == before_q * t.value() + t.value())
                    by (nonlinear_arith);
            },
            None => {
                acc = match acc.checked_add(x) {
                    Some(v) => v,
                    None => return (0, *x),
                };
            },
        }
        assert((k + 1) * x.value() == k * x.value() + x.value()) by (nonlinear_arith);
        k = k + 1;
    }
    assert(q < 10) by (nonlinear_arith)
        requires
            q * t.value() + acc.value() == 10 * x.value(),
            x.value() < t.value(),
            q <= 10,
    ;
    proof {
        lemma_fundamental_div_mod_converse(
            (10 * x.value()) as int,
            t.value() as int,
            q as int,
            acc.value() as int,
        );
    }
    (q, acc)
}

/// The fractional digits of `r / t` (`r < t`), trailing zeros dropped.
fn frac_string(r: &U256, t: &U256) -> (s: String)
    requires
        r.value() < t.value(),
    ensures
        s@ == trim_zeros(frac_digits(r.value(), t.value(), PRICE_DECIMALS as nat)),
{
    let mut digits = String::new();
    let mut x = *r;
    let mut i: usize = 0;
    while i < PRICE_DECIMALS
        invariant
            i <= PRICE_DECIMALS,
            x.value() < t.value(),
            digits@ + frac_digits(x.value(), t.value(), (PRICE_DECIMALS - i) as nat)
                == frac_digits(r.value(), t.value(), PRICE_DECIMALS as nat),
        decreases PRICE_DECIMALS - i,
    {
        let ghost before = digits@;
        let ghost rest = frac_digits(x.value(), t.value(), (PRICE_DECIMALS - i) as nat);
        let (d, next) = long_div_step(&x, t);
        push_char(&mut digits, (48u8 + d) as char);
        assert(digit_char(d as nat) == (48u8 + d) as char);
        assert(rest == seq![digit_char(d as nat)] + frac_digits(
            next.value(),
            t.value(),
            (PRICE_DECIMALS - i - 1) as nat,
        ));
        assert(digits@ + frac_digits(next.value(), t.value(), (PRICE_DECIMALS - i - 1) as nat)
            =~= before + rest);
        x = next;
        i = i + 1;
    }
    assert(digits@ + frac_digits(x.value(), t.value(), 0) =~= digits@);
    let all = digits.as_str();
    let mut j: usize = all.unicode_len();
    assert(all@.subrange(0, j as int) =~= all@);
    while j > 0
        invariant
            j <= all@.len(),
            trim_zeros(all@) == trim_zeros(all@.subrange(0, j as int)),
        ensures
            j <= all@.len(),
            trim_zeros(all@) == trim_zeros(all@.subrange(0, j as int)),
            j == 0 || all@[j - 1] != '0',
        decreases j,
    {
        if all.get_char(j - 1) != '0' {
            break;
        }
        assert(all@.subrange(0, j as int).drop_last() =~= all@.subrange(0, j - 1));
        j = j - 1;
    }
    owned(all.substring_char(0, j))
}

/// The price `quote / token` as a decimal string, or `None` when the token
/// reserve is zero.
pub fn price(quote: &U256, token: &U256) -> (r: Option<String>)
    ensures
        token.value() == 0 ==> r is None,
        token.value() > 0 ==> (r matches Some(s) && s@ == price_text(
            quote.value(),
            token.value(),
        )),
{
    let rem = match quote.checked_rem(token) {
        Some(v) => v,
        None => return None,
    };
    let mut out = quote.div(token).to_decimal_string();
    let frac = frac_string(&rem, token);
    if frac.as_str().unicode_len() == 0 {
        Some(out)
    } else {
        out.append(".");
        out.append(frac.as_str());
        Some(out)
    }
}

} // verus!
