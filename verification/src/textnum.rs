//! Verified number-to-text formatting: plain decimals, thousands-separated
//! decimals, the slayer experience shorthand (`K`/`M` suffixes with one
//! decimal place), and the two-decimal skill average.

use vstd::prelude::*;
use vstd::arithmetic::power2::pow2;
use crate::model::{SkyblockNetworth, SkyblockSenitherWeight, SkyblockSkills};

verus! {

/// The decimal digit character for `d` (meaningful for `d < 10`).
pub open spec fn digit_char(d: nat) -> char {
    if d == 0 { '0' }
    else if d == 1 { '1' }
    else if d == 2 { '2' }
    else if d == 3 { '3' }
    else if d == 4 { '4' }
    else if d == 5 { '5' }
    else if d == 6 { '6' }
    else if d == 7 { '7' }
    else if d == 8 { '8' }
    else { '9' }
}

/// The plain decimal representation of `n`, most significant digit first,
/// with no leading zeroes (a single `0` for zero).
pub open spec fn dec_rep(n: nat) -> Seq<char>
    decreases n,
{
    if n < 10 {
        seq![digit_char(n)]
    } else {
        dec_rep(n / 10).push(digit_char(n % 10))
    }
}

/// The three-digit, zero-padded decimal representation of `n` (meaningful
/// for `n < 1000`): one thousands group.
pub open spec fn dec_pad3(n: nat) -> Seq<char> {
    seq![digit_char(n / 100 % 10), digit_char(n / 10 % 10), digit_char(n % 10)]
}

/// The decimal representation of `n` with a comma between each group of
/// three digits, counted from the right.
pub open spec fn grouped_rep(n: nat) -> Seq<char>
    decreases n,
{
    if n < 1000 {
        dec_rep(n)
    } else {
        grouped_rep(n / 1000) + seq![','] + dec_pad3(n % 1000)
    }
}

/// [`grouped_rep`] of the magnitude, preceded by `-` for negative numbers.
pub open spec fn signed_grouped_rep(n: int) -> Seq<char> {
    if n >= 0 {
        grouped_rep(n as nat)
    } else {
        seq!['-'] + grouped_rep((-n) as nat)
    }
}

/// `a / b` rounded to the nearest integer, ties to the even neighbor
/// (meaningful for `b > 0`).
pub open spec fn rne_div(a: nat, b: nat) -> nat {
    let q = a / b;
    let r = a % b;
    if 2 * r > b || (2 * r == b && q % 2 == 1) {
        q + 1
    } else {
        q
    }
}

/// The number of binary digits of `n`: zero for zero, otherwise the unique
/// `k` with `2^(k-1) <= n < 2^k`.
pub open spec fn bit_len(n: nat) -> nat
    decreases n,
{
    if n == 0 {
        0
    } else {
        1 + bit_len(n / 2)
    }
}

/// `n` held to at most 53 significant binary digits, rounded to nearest
/// with ties to even: the value a 64-bit integer takes when it is cast to
/// a 64-bit float.
pub open spec fn rne53_int(n: nat) -> nat {
    if bit_len(n) <= 53 {
        n
    } else {
        let unit = pow2((bit_len(n) - 53) as nat);
        rne_div(n, unit) * unit
    }
}

/// The count of tenths that printing `x as f64 / unit as f64` to one
/// decimal place shows: the cast rounds `x` to 53 significant binary
/// digits, the division rounds its exact quotient to a 53-bit mantissa
/// `m` at the quotient's own scale `2^(e - 52)`, and the printing rounds
/// that value's exact decimal expansion to tenths — each to nearest with
/// ties to even. Meaningful for `0 < unit` with `x` either zero or at
/// least `unit`, and quotients below `2^53`; every slayer value lands
/// there.
pub open spec fn f64_tenths(x: nat, unit: nat) -> nat
    recommends
        0 < unit,
        x == 0 || x >= unit,
        rne53_int(x) / unit < pow2(53),
{
    let n = rne53_int(x);
    if n < unit {
        0
    } else {
        let e = (bit_len(n / unit) - 1) as nat;
        let scale = if e <= 52 {
            pow2((52 - e) as nat)
        } else {
            1
        };
        let m = rne_div(n * scale, unit);
        rne_div(m * 10, scale)
    }
}

/// A count of tenths written with exactly one decimal place: `125` becomes
/// `12.5`.
pub open spec fn fixed1(t: nat) -> Seq<char> {
    dec_rep(t / 10) + seq!['.', digit_char(t % 10)]
}

/// The slayer experience shorthand: at least a million becomes millions to
/// one decimal place with an `M` suffix, at least a thousand becomes
/// thousands to one decimal place with a `K` suffix, anything less is
/// written as is, to one decimal place — each quotient printed as its
/// 64-bit float rendering rounds it.
pub open spec fn slayer_rep(xp: nat) -> Seq<char> {
    if xp >= 1000000 {
        fixed1(f64_tenths(xp, 1000000)) + seq!['M']
    } else if xp >= 1000 {
        fixed1(f64_tenths(xp, 1000)) + seq!['K']
    } else {
        fixed1(f64_tenths(xp, 1))
    }
}

/// The sum of the eight skill levels that enter the skill average: taming,
/// farming, mining, combat, foraging, fishing, enchanting, alchemy.
/// Carpentry, runecrafting, social, and catacombs are left out.
pub open spec fn skill_levels_sum(sk: SkyblockSkills) -> int {
    sk.taming.level + sk.farming.level + sk.mining.level + sk.combat.level + sk.foraging.level
        + sk.fishing.level + sk.enchanting.level + sk.alchemy.level
}

/// The average of the eight skill levels in hundredths, rounded to the
/// nearest hundredth with ties to even. An eighth of a whole sum is
/// exactly representable as a float, so this is precisely what printing
/// the float average to two decimal places shows.
pub open spec fn avg_hundredths(sum: nat) -> nat {
    rne_div(sum * 100, 8)
}

/// A count of hundredths written with exactly two decimal places: `4500`
/// becomes `45.00`.
pub open spec fn fixed2(h: nat) -> Seq<char> {
    dec_rep(h / 100) + seq!['.', digit_char(h / 10 % 10), digit_char(h % 10)]
}

/// The full skill-average line of the card.
pub open spec fn skill_average_rep(sk: SkyblockSkills) -> Seq<char> {
    "Skill Average: "@ + fixed2(avg_hundredths(skill_levels_sum(sk) as nat))
}

/// Appends the single digit `d` to `s`.
fn push_digit(s: &mut String, d: u64)
    requires
        d < 10,
    ensures
        final(s)@ == old(s)@.push(digit_char(d as nat)),
{
    proof {
        reveal_strlit("0");
        reveal_strlit("1");
        reveal_strlit("2");
        reveal_strlit("3");
        reveal_strlit("4");
        reveal_strlit("5");
        reveal_strlit("6");
        reveal_strlit("7");
        reveal_strlit("8");
        reveal_strlit("9");
    }
    if d == 0 {
        s.append("0");
    } else if d == 1 {
        s.append("1");
    } else if d == 2 {
        s.append("2");
    } else if d == 3 {
        s.append("3");
    } else if d == 4 {
        s.append("4");
    } else if d == 5 {
        s.append("5");
    } else if d == 6 {
        s.append("6");
    } else if d == 7 {
        s.append("7");
    } else if d == 8 {
        s.append("8");
    } else {
        s.append("9");
    }
    assert(s@ =~= old(s)@.push(digit_char(d as nat)));
}

/// Appends the plain decimal representation of `n` to `s`.
fn append_dec(s: &mut String, n: u64)
    ensures
        final(s)@ == old(s)@ + dec_rep(n as nat),
    decreases n,
{
    if n < 10 {
        push_digit(s, n);
        assert(s@ =~= old(s)@ + dec_rep(n as nat));
    } else {
        append_dec(s, n / 10);
        push_digit(s, n % 10);
        assert(s@ =~= old(s)@ + dec_rep(n as nat));
    }
}

/// The plain decimal representation of `n`, as a string.
pub fn format_u64(n: u64) -> (r: String)
    ensures
        r@ == dec_rep(n as nat),
{
    let mut s = String::new();
    append_dec(&mut s, n);
    assert(s@ =~= dec_rep(n as nat));
    s
}

/// Appends one zero-padded thousands group to `s`.
fn append_pad3(s: &mut String, n: u64)
    requires
        n < 1000,
    ensures
        final(s)@ == old(s)@ + dec_pad3(n as nat),
{
    push_digit(s, n / 100 % 10);
    push_digit(s, n / 10 % 10);
    push_digit(s, n % 10);
    assert(s@ =~= old(s)@ + dec_pad3(n as nat));
}

/// Appends the thousands-separated decimal representation of `n` to `s`.
fn append_grouped(s: &mut String, n: u64)
    ensures
        final(s)@ == old(s)@ + grouped_rep(n as nat),
    decreases n,
{
    if n < 1000 {
        append_dec(s, n);
    } else {
        append_grouped(s, n / 1000);
        proof {
            reveal_strlit(",");
        }
        s.append(",");
        append_pad3(s, n % 1000);
        assert(s@ =~= old(s)@ + grouped_rep(n as nat));
    }
}

/// The thousands-separated decimal representation of `n`, as a string:
/// `1234567` becomes `1,234,567`.
pub fn format_grouped_u64(n: u64) -> (r: String)
    ensures
        r@ == grouped_rep(n as nat),
{
    let mut s = String::new();
    append_grouped(&mut s, n);
    assert(s@ =~= grouped_rep(n as nat));
    s
}

/// The thousands-separated decimal representation of `n`, as a string, with
/// a leading `-` for negative numbers.
pub fn format_grouped_i64(n: i64) -> (r: String)
    ensures
        r@ == signed_grouped_rep(n as int),
{
    if n >= 0 {
        format_grouped_u64(n as u64)
    } else {
        let magnitude: u64 = (-(n + 1)) as u64 + 1;
        assert(magnitude == -(n as int));
        let mut s = String::new();
        proof {
            reveal_strlit("-");
        }
        s.append("-");
        append_grouped(&mut s, magnitude);
        assert(s@ =~= signed_grouped_rep(n as int));
        s
    }
}

/// A number below `2^k` has at most `k` binary digits.
proof fn lemma_bit_len_atmost(n: nat, k: nat)
    requires
        n < pow2(k),
    ensures
        bit_len(n) <= k,
    decreases k,
{
    if n > 0 {
        assert(k > 0) by {
            if k == 0 {
                vstd::arithmetic::power2::lemma2_to64();
            }
        }
        vstd::arithmetic::power2::lemma_pow2_unfold(k);
        assert(n / 2 < pow2((k - 1) as nat)) by {
            vstd::arithmetic::div_mod::lemma_multiply_divide_lt(
                n as int,
                2,
                pow2((k - 1) as nat) as int,
            );
        }
        lemma_bit_len_atmost(n / 2, (k - 1) as nat);
    }
}

/// A number of at least `2^k` has more than `k` binary digits.
proof fn lemma_bit_len_atleast(n: nat, k: nat)
    requires
        n >= pow2(k),
    ensures
        bit_len(n) >= k + 1,
    decreases k,
{
    vstd::arithmetic::power2::lemma_pow2_pos(k);
    if k > 0 {
        vstd::arithmetic::power2::lemma_pow2_unfold(k);
        assert(n / 2 >= pow2((k - 1) as nat)) by {
            vstd::arithmetic::div_mod::lemma_div_is_ordered(
                2 * pow2((k - 1) as nat) as int,
                n as int,
                2,
            );
            vstd::arithmetic::div_mod::lemma_div_multiples_vanish(pow2((k - 1) as nat) as int, 2);
        }
        lemma_bit_len_atleast(n / 2, (k - 1) as nat);
    }
}

/// Every number sits below two to its own digit count.
proof fn lemma_bit_len_bound(n: nat)
    ensures
        n < pow2(bit_len(n)),
    decreases n,
{
    if n == 0 {
        vstd::arithmetic::power2::lemma2_to64();
    } else {
        lemma_bit_len_bound(n / 2);
        vstd::arithmetic::power2::lemma_pow2_unfold(bit_len(n));
        vstd::arithmetic::div_mod::lemma_fundamental_div_mod(n as int, 2);
    }
}

/// Rounds a 64-bit integer to at most 53 significant binary digits, to
/// nearest with ties to even: the value the integer takes when it is cast
/// to a 64-bit float.
fn rne53_u64(x: u64) -> (n: u128)
    ensures
        n == rne53_int(x as nat),
        x < pow2(53) ==> n == x as u128,
        n <= pow2(64),
        n + 2048 >= x,
{
    proof {
        vstd::arithmetic::power2::lemma2_to64();
        vstd::arithmetic::power2::lemma2_to64_rest();
    }
    if x < 9007199254740992 {
        proof {
            lemma_bit_len_atmost(x as nat, 53);
        }
        x as u128
    } else {
        // the smallest s with x / 2^s below 2^53: the top s bits round away
        let mut unit: u64 = 1;
        let ghost mut s: nat = 0;
        while x / unit >= 9007199254740992
            invariant
                x >= 9007199254740992,
                1 <= unit == pow2(s),
                s <= 11,
                s == 0 || (x as nat) / pow2((s - 1) as nat) >= pow2(53),
            decreases 11 - s,
        {
            proof {
                vstd::arithmetic::power2::lemma2_to64();
                vstd::arithmetic::power2::lemma2_to64_rest();
                assert((x as nat) >= pow2(53) * pow2(s)) by {
                    if (x as nat) < pow2(53) * pow2(s) {
                        vstd::arithmetic::div_mod::lemma_multiply_divide_lt(
                            x as int,
                            pow2(s) as int,
                            pow2(53) as int,
                        );
                    }
                }
                vstd::arithmetic::power2::lemma_pow2_adds(53, s);
                assert(s <= 10) by {
                    if 53 + s > 64 {
                        vstd::arithmetic::power2::lemma_pow2_strictly_increases(64, 53 + s);
                    }
                }
            }
            unit = unit * 2;
            proof {
                s = s + 1;
                vstd::arithmetic::power2::lemma_pow2_unfold(s);
            }
        }
        proof {
            assert(s >= 1) by {
                vstd::arithmetic::div_mod::lemma_div_multiples_vanish(x as int, 1);
            }
            // x sits between 2^(52 + s) and 2^(53 + s): its digit count is 53 + s
            assert((x as nat) < pow2(53) * pow2(s)) by {
                if (x as nat) >= pow2(53) * pow2(s) {
                    vstd::arithmetic::div_mod::lemma_div_is_ordered(
                        (pow2(53) * pow2(s)) as int,
                        x as int,
                        pow2(s) as int,
                    );
                    vstd::arithmetic::div_mod::lemma_div_by_multiple(
                        pow2(53) as int,
                        pow2(s) as int,
                    );
                }
            }
            vstd::arithmetic::power2::lemma_pow2_adds(53, s);
            lemma_bit_len_atmost(x as nat, 53 + s);
            assert((x as nat) >= pow2(53) * pow2((s - 1) as nat)) by {
                vstd::arithmetic::power2::lemma_pow2_pos((s - 1) as nat);
                if (x as nat) < pow2(53) * pow2((s - 1) as nat) {
                    vstd::arithmetic::div_mod::lemma_multiply_divide_lt(
                        x as int,
                        pow2((s - 1) as nat) as int,
                        pow2(53) as int,
                    );
                }
            }
            vstd::arithmetic::power2::lemma_pow2_adds(53, (s - 1) as nat);
            lemma_bit_len_atleast(x as nat, (52 + s) as nat);
            assert(bit_len(x as nat) == 53 + s);
            // the doubling count stays at most eleven, so the unit is small
            assert(unit <= 2048) by {
                if s < 11 {
                    vstd::arithmetic::power2::lemma_pow2_strictly_increases(s, 11);
                }
            }
        }
        let q = x / unit;
        let r = x % unit;
        let n0: u64 = if 2 * r > unit || (2 * r == unit && q % 2 == 1) {
            q + 1
        } else {
            q
        };
        proof {
            assert(n0 == rne_div(x as nat, pow2(s)));
            assert(n0 <= 9007199254740992);
            vstd::arithmetic::mul::lemma_mul_upper_bound(
                n0 as int,
                9007199254740992,
                unit as int,
                2048,
            );
        }
        let n: u128 = (n0 as u128) * (unit as u128);
        proof {
            assert(n == rne53_int(x as nat));
            assert(n <= pow2(64)) by {
                vstd::arithmetic::mul::lemma_mul_upper_bound(
                    n0 as int,
                    pow2(53) as int,
                    unit as int,
                    pow2(11) as int,
                );
                vstd::arithmetic::power2::lemma_pow2_adds(53, 11);
                if s < 11 {
                    vstd::arithmetic::power2::lemma_pow2_strictly_increases(s, 11);
                }
            }
            assert(n + 2048 >= x) by {
                vstd::arithmetic::div_mod::lemma_fundamental_div_mod(x as int, unit as int);
                vstd::arithmetic::div_mod::lemma_mod_division_less_than_divisor(
                    x as int,
                    unit as int,
                );
                vstd::arithmetic::mul::lemma_mul_inequality(q as int, n0 as int, unit as int);
            }
        }
        n
    }
}

/// The count of tenths that printing `x as f64 / unit as f64` to one
/// decimal place shows, for the three shapes the slayer shorthand uses.
fn compute_tenths(x: u64, unit: u64) -> (t: u64)
    requires
        (unit == 1 && x < 1000) || (unit == 1000 && 1000 <= x < 1000000) || (unit == 1000000
            && x >= 1000000),
    ensures
        t == f64_tenths(x as nat, unit as nat),
{
    proof {
        vstd::arithmetic::power2::lemma2_to64();
        vstd::arithmetic::power2::lemma2_to64_rest();
    }
    let n = rne53_u64(x);
    let wide_unit = unit as u128;
    if n < wide_unit {
        // only a zero value over a unit of one lands here
        return 0;
    }
    let quotient = n / wide_unit;
    proof {
        vstd::arithmetic::div_mod::lemma_div_non_zero(n as int, wide_unit as int);
        assert(quotient < pow2(53)) by {
            assert((n as int) < (wide_unit as int) * (pow2(53) as int));
            vstd::arithmetic::div_mod::lemma_multiply_divide_lt(
                n as int,
                wide_unit as int,
                pow2(53) as int,
            );
        }
        lemma_bit_len_atmost(quotient as nat, 53);
    }
    // binary digits of the quotient
    let mut v = quotient;
    let mut b: u64 = 0;
    while v > 0
        invariant
            b + bit_len(v as nat) == bit_len(quotient as nat),
            bit_len(quotient as nat) <= 53,
        decreases v,
    {
        v = v / 2;
        b = b + 1;
    }
    proof {
        assert(b >= 1 && b <= 53);
    }
    // the scale 2^(52 - e) of the quotient's 53-bit mantissa
    let k = 52 - (b - 1);
    let mut scale: u128 = 1;
    let mut i: u64 = 0;
    while i < k
        invariant
            i <= k <= 52,
            scale == pow2(i as nat),
        decreases k - i,
    {
        proof {
            vstd::arithmetic::power2::lemma2_to64();
            vstd::arithmetic::power2::lemma2_to64_rest();
            if (i as nat) < 52 {
                vstd::arithmetic::power2::lemma_pow2_strictly_increases(i as nat, 52);
            }
            vstd::arithmetic::power2::lemma_pow2_unfold((i + 1) as nat);
        }
        scale = scale * 2;
        i = i + 1;
    }
    proof {
        assert(scale <= pow2(52)) by {
            if (k as nat) < 52 {
                vstd::arithmetic::power2::lemma_pow2_strictly_increases(k as nat, 52);
            }
        }
        assert(n * scale <= pow2(64) * pow2(52)) by {
            vstd::arithmetic::mul::lemma_mul_upper_bound(
                n as int,
                pow2(64) as int,
                scale as int,
                pow2(52) as int,
            );
        }
        vstd::arithmetic::power2::lemma_pow2_adds(64, 52);
        assert(pow2(64) * pow2(52) == pow2(116));
        assert(pow2(116) < 0x100000000000000000000000000000000);
    }
    // the mantissa: the quotient rounded at that scale
    let a = n * scale;
    let q2 = a / wide_unit;
    let r2 = a % wide_unit;
    let m = if 2 * r2 > wide_unit || (2 * r2 == wide_unit && q2 % 2 == 1) {
        q2 + 1
    } else {
        q2
    };
    proof {
        assert(m == rne_div((n * scale) as nat, unit as nat));
        lemma_bit_len_bound(quotient as nat);
        assert(m <= pow2(53)) by {
            vstd::arithmetic::div_mod::lemma_fundamental_div_mod(n as int, wide_unit as int);
            vstd::arithmetic::div_mod::lemma_mod_division_less_than_divisor(
                n as int,
                wide_unit as int,
            );
            assert((n as int) < ((quotient + 1) as int) * (wide_unit as int)) by (nonlinear_arith)
                requires
                    n as int == (wide_unit as int) * (quotient as int) + (n as int) % (
                    wide_unit as int),
                    (n as int) % (wide_unit as int) < wide_unit as int,
            ;
            assert((a as int) < (wide_unit as int) * (((quotient + 1) * scale) as int))
                by (nonlinear_arith)
                requires
                    a == n * scale,
                    (n as int) < ((quotient + 1) as int) * (wide_unit as int),
                    scale >= 1,
            ;
            vstd::arithmetic::div_mod::lemma_multiply_divide_lt(
                a as int,
                wide_unit as int,
                ((quotient + 1) * scale) as int,
            );
            assert(((quotient + 1) * scale) as int <= (pow2(b as nat) * pow2(k as nat)) as int)
                by {
                    vstd::arithmetic::mul::lemma_mul_inequality(
                        (quotient + 1) as int,
                        pow2(b as nat) as int,
                        scale as int,
                    );
                }
            vstd::arithmetic::power2::lemma_pow2_adds(b as nat, k as nat);
        }
    }
    // the printed tenths: the mantissa times ten, rounded back at the scale
    let num = m * 10;
    let q3 = num / scale;
    let r3 = num % scale;
    let t = if 2 * r3 > scale || (2 * r3 == scale && q3 % 2 == 1) {
        q3 + 1
    } else {
        q3
    };
    proof {
        vstd::arithmetic::div_mod::lemma_div_nonincreasing(num as int, scale as int);
        assert(t == rne_div((m * 10) as nat, scale as nat));
        assert(t == f64_tenths(x as nat, unit as nat));
    }
    t as u64
}

/// Appends a count of tenths with exactly one decimal place to `s`.
fn append_fixed1(s: &mut String, t: u64)
    ensures
        final(s)@ == old(s)@ + fixed1(t as nat),
{
    append_dec(s, t / 10);
    proof {
        reveal_strlit(".");
    }
    s.append(".");
    push_digit(s, t % 10);
    assert(s@ =~= old(s)@ + fixed1(t as nat));
}

/// The slayer experience shorthand, as a string: `999` becomes `999.0`,
/// `1500` becomes `1.5K`, `2340000` becomes `2.3M`.
pub fn format_slayer_xp(xp: u64) -> (r: String)
    ensures
        r@ == slayer_rep(xp as nat),
{
    let mut s = String::new();
    if xp >= 1000000 {
        let t = compute_tenths(xp, 1000000);
        append_fixed1(&mut s, t);
        proof {
            reveal_strlit("M");
        }
        s.append("M");
        assert(s@ =~= slayer_rep(xp as nat));
    } else if xp >= 1000 {
        let t = compute_tenths(xp, 1000);
        append_fixed1(&mut s, t);
        proof {
            reveal_strlit("K");
        }
        s.append("K");
        assert(s@ =~= slayer_rep(xp as nat));
    } else {
        let t = compute_tenths(xp, 1);
        append_fixed1(&mut s, t);
        assert(s@ =~= slayer_rep(xp as nat));
    }
    s
}

/// The skill-average line of the card: `Skill Average: ` followed by the
/// average of the eight counted skill levels, to two decimal places.
pub fn skill_average_text(sk: &SkyblockSkills) -> (r: String)
    ensures
        r@ == skill_average_rep(*sk),
{
    let sum: u64 = sk.taming.level as u64 + sk.farming.level as u64 + sk.mining.level as u64
        + sk.combat.level as u64 + sk.foraging.level as u64 + sk.fishing.level as u64
        + sk.enchanting.level as u64 + sk.alchemy.level as u64;
    let q: u64 = (sum * 100) / 8;
    let r: u64 = (sum * 100) % 8;
    let h: u64 = if 2 * r > 8 || (2 * r == 8 && q % 2 == 1) {
        q + 1
    } else {
        q
    };
    assert(h == avg_hundredths(skill_levels_sum(*sk) as nat));
    let mut s = String::new();
    proof {
        reveal_strlit("Skill Average: ");
        reveal_strlit(".");
    }
    s.append("Skill Average: ");
    append_dec(&mut s, h / 100);
    s.append(".");
    push_digit(&mut s, h / 10 % 10);
    push_digit(&mut s, h % 10);
    assert(s@ =~= skill_average_rep(*sk));
    s
}

/// The net-worth line of the card: the thousands-separated total, or the
/// literal `No Inventory API` when the total is absent.
pub open spec fn networth_rep(nw: SkyblockNetworth) -> Seq<char> {
    match nw.total_networth {
        Some(t) => signed_grouped_rep(t as int),
        None => "No Inventory API"@,
    }
}

/// The Senither weight line of the card: the total, then the total with
/// overflow in parentheses, both thousands-separated.
pub open spec fn senither_rep(w: SkyblockSenitherWeight) -> Seq<char> {
    signed_grouped_rep(w.total_weight as int) + " ("@ + signed_grouped_rep(
        w.total_weight_with_overflow as int,
    ) + ")"@
}

/// Renders the net-worth line of the card.
pub fn networth_text(nw: &SkyblockNetworth) -> (r: String)
    ensures
        r@ == networth_rep(*nw),
{
    match nw.total_networth {
        Some(t) => format_grouped_i64(t),
        None => String::from_str("No Inventory API"),
    }
}

/// Renders the Senither weight line of the card.
pub fn senither_text(w: &SkyblockSenitherWeight) -> (r: String)
    ensures
        r@ == senither_rep(*w),
{
    let mut s = format_grouped_i64(w.total_weight as i64);
    proof {
        reveal_strlit(" (");
        reveal_strlit(")");
    }
    s.append(" (");
    let overflow = format_grouped_i64(w.total_weight_with_overflow as i64);
    s.append(overflow.as_str());
    s.append(")");
    assert(s@ =~= signed_grouped_rep(w.total_weight as int) + " ("@ + signed_grouped_rep(
        w.total_weight_with_overflow as int,
    ) + ")"@);
    s
}

} // verus!
