//! The threshold variance of a monitor, an exact decimal number. A form
//! hands it in as text (`"0.25"`, `"5"`); the store receives it back inside
//! the alert's JSON. Values are kept normalized, so that `0.10` and `0.1`
//! are one value.

use vstd::prelude::*;
use crate::bytes_util::{spec_find, lemma_find_bounds, find_byte};

verus! {

/// A non-negative decimal number, `mantissa / 10^scale`.
#[derive(Clone, Copy, Debug, PartialEq, Eq, Structural)]
pub struct Variance {
    pub mantissa: u64,
    pub scale: u32,
}

impl Variance {
    /// Normal form: a fractional part never ends in a zero digit.
    pub open spec fn wf(&self) -> bool {
        self.scale > 0 ==> self.mantissa % 10 != 0
    }
}

/// `b` is an ASCII decimal digit.
pub open spec fn is_digit(b: u8) -> bool {
    48 <= b <= 57
}

/// 10 to the `n`th power.
pub open spec fn pow10(n: nat) -> nat
    decreases n,
{
    if n == 0 {
        1
    } else {
        10 * pow10((n - 1) as nat)
    }
}

/// Value of one digit character (zero for anything else).
pub open spec fn digit_val(b: u8) -> nat {
    if is_digit(b) {
        (b - 48) as nat
    } else {
        0
    }
}

/// The number a sequence of digit characters denotes, most significant
/// first.
pub open spec fn digits_val(s: Seq<u8>) -> nat
    decreases s.len(),
{
    if s.len() == 0 {
        0
    } else {
        digits_val(s.drop_last()) * 10 + digit_val(s.last())
    }
}

/// Strip factors of ten out of the mantissa into the scale.
pub open spec fn normalize(m: nat, s: nat) -> (nat, nat)
    decreases s,
{
    if s > 0 && m % 10 == 0 {
        normalize(m / 10, (s - 1) as nat)
    } else {
        (m, s)
    }
}

/// Every character of `s` in `[from, to)` is a digit.
pub open spec fn all_digits(s: Seq<u8>, from: int, to: int) -> bool {
    forall|i: int| from <= i < to ==> is_digit(#[trigger] s[i])
}

/// `s` is a decimal literal this crate accepts: one to eighteen digits,
/// or digits on both sides of one dot, eighteen digits in all.
pub open spec fn valid_variance_text(s: Seq<u8>) -> bool {
    let d = spec_find(s, 46, 0);
    if d == s.len() {
        1 <= s.len() <= 18 && all_digits(s, 0, s.len() as int)
    } else {
        &&& 1 <= d
        &&& d + 1 < s.len()
        &&& s.len() <= 19
        &&& all_digits(s, 0, d)
        &&& all_digits(s, d + 1, s.len() as int)
    }
}

/// The digit characters of `s` with the dot, if any, removed.
pub open spec fn spec_digits_of(s: Seq<u8>) -> Seq<u8> {
    let d = spec_find(s, 46, 0);
    if d == s.len() {
        s
    } else {
        s.subrange(0, d) + s.subrange(d + 1, s.len() as int)
    }
}

/// The scale a literal carries: the number of digits after its dot.
pub open spec fn spec_scale_of(s: Seq<u8>) -> nat {
    let d = spec_find(s, 46, 0);
    if d == s.len() {
        0
    } else {
        (s.len() - d - 1) as nat
    }
}

/// The variance a decimal literal denotes, if it is valid.
pub open spec fn spec_parse_variance(s: Seq<u8>) -> Option<Variance> {
    if valid_variance_text(s) {
        let n = normalize(digits_val(spec_digits_of(s)), spec_scale_of(s));
        Some(Variance { mantissa: n.0 as u64, scale: n.1 as u32 })
    } else {
        None
    }
}

pub proof fn lemma_pow10_values()
    ensures
        pow10(18) == 1000000000000000000,
{
    assert(pow10(0) == 1);
    assert(pow10(1) == 10);
    assert(pow10(2) == 100);
    assert(pow10(3) == 1000);
    assert(pow10(4) == 10000);
    assert(pow10(5) == 100000);
    assert(pow10(6) == 1000000);
    assert(pow10(7) == 10000000);
    assert(pow10(8) == 100000000);
    assert(pow10(9) == 1000000000);
    assert(pow10(10) == 10000000000);
    assert(pow10(11) == 100000000000);
    assert(pow10(12) == 1000000000000);
    assert(pow10(13) == 10000000000000);
    assert(pow10(14) == 100000000000000);
    assert(pow10(15) == 1000000000000000);
    assert(pow10(16) == 10000000000000000);
    assert(pow10(17) == 100000000000000000);
    assert(pow10(18) == 1000000000000000000);
}

pub proof fn lemma_pow10_mono(a: nat, b: nat)
    requires
        a <= b,
    ensures
        pow10(a) <= pow10(b),
    decreases b,
{
    if a < b {
        lemma_pow10_mono(a, (b - 1) as nat);
        assert(pow10(b) == 10 * pow10((b - 1) as nat));
    }
}

/// Check that every byte of `s` in `[from, to)` is a digit.
fn check_digits(s: &[u8], from: usize, to: usize) -> (r: bool)
    requires
        from <= to <= s@.len(),
    ensures
        r == all_digits(s@, from as int, to as int),
{
    let mut i: usize = from;
    while i < to
        invariant
            from <= i <= to <= s@.len(),
            forall|j: int| from <= j < i ==> is_digit(#[trigger] s@[j]),
        decreases to - i,
    {
        let b: u8 = s[i];
        if b < 48 || b > 57 {
            return false;
        }
        i = i + 1;
    }
    true
}

/// Accumulate the value of a digit vector; at most 18 digits fit.
fn digits_to_val(digits: &Vec<u8>) -> (r: u64)
    requires
        digits@.len() <= 18,
        all_digits(digits@, 0, digits@.len() as int),
    ensures
        r == digits_val(digits@),
        r < pow10(digits@.len() as nat),
{
    let n: usize = digits.len();
    let mut acc: u64 = 0;
    let mut i: usize = 0;
    proof {
        lemma_pow10_values();
        assert(digits@.subrange(0, 0) =~= Seq::<u8>::empty());
    }
    while i < n
        invariant
            n == digits@.len() <= 18,
            0 <= i <= n,
            all_digits(digits@, 0, n as int),
            acc == digits_val(digits@.subrange(0, i as int)),
            acc < pow10(i as nat),
            pow10(18) == 1000000000000000000,
        decreases n - i,
    {
        let d: u8 = digits[i];
        proof {
            lemma_pow10_mono((i + 1) as nat, 18);
            assert(pow10((i + 1) as nat) == 10 * pow10(i as nat));
            assert(digits@.subrange(0, i + 1).drop_last() =~= digits@.subrange(0, i as int));
            assert(digits@.subrange(0, i + 1).last() == digits@[i as int]);
        }
        acc = acc * 10 + ((d - 48) as u64);
        i = i + 1;
    }
    proof {
        assert(digits@.subrange(0, n as int) =~= digits@);
    }
    acc
}

impl Variance {
    /// Parse a decimal literal. Returns `Some` exactly on text that
    /// `valid_variance_text` accepts, and then the normalized value.
    pub fn parse(s: &[u8]) -> (r: Option<Variance>)
        ensures
            r == spec_parse_variance(s@),
    {
        let n: usize = s.len();
        let d: usize = find_byte(s, 46);
        let mut digits: Vec<u8> = Vec::new();
        let scale0: usize;
        if d == n {
            if !(1 <= n && n <= 18) || !check_digits(s, 0, n) {
                return None;
            }
            crate::bytes_util::push_bytes(&mut digits, s);
            scale0 = 0;
        } else {
            if !(1 <= d && d + 1 < n && n <= 19) {
                return None;
            }
            if !check_digits(s, 0, d) || !check_digits(s, d + 1, n) {
                return None;
            }
            let head = vstd::slice::slice_subrange(s, 0, d);
            let tail = vstd::slice::slice_subrange(s, d + 1, n);
            crate::bytes_util::push_bytes(&mut digits, head);
            crate::bytes_util::push_bytes(&mut digits, tail);
            scale0 = n - d - 1;
        }
        assert(digits@ == spec_digits_of(s@));
        assert(valid_variance_text(s@));
        assert(digits@.len() <= 18);
        assert(all_digits(digits@, 0, digits@.len() as int)) by {
            if spec_find(s@, 46, 0) < s@.len() {
                let dd = spec_find(s@, 46, 0);
                assert forall|j: int| 0 <= j < digits@.len() implies is_digit(
                    #[trigger] digits@[j],
                ) by {
                    if j < dd {
                        assert(digits@[j] == s@[j]);
                    } else {
                        assert(digits@[j] == s@[j + 1]);
                    }
                }
            }
        }
        let val: u64 = digits_to_val(&digits);
        let mut m: u64 = val;
        let mut sc: usize = scale0;
        while sc > 0 && m % 10 == 0
            invariant
                normalize(m as nat, sc as nat) == normalize(digits_val(digits@), scale0 as nat),
            decreases sc,
        {
            m = m / 10;
            sc = sc - 1;
        }
        assert(normalize(m as nat, sc as nat) == (m as nat, sc as nat));
        assert(scale0 as nat == spec_scale_of(s@));
        assert(sc <= scale0) by {
            lemma_normalize_scale(digits_val(digits@), scale0 as nat);
        }
        Some(Variance { mantissa: m, scale: sc as u32 })
    }
}

pub proof fn lemma_normalize_scale(m: nat, s: nat)
    ensures
        normalize(m, s).1 <= s,
        normalize(m, s).0 <= m,
        normalize(m, s).1 > 0 ==> normalize(m, s).0 % 10 != 0,
    decreases s,
{
    if s > 0 && m % 10 == 0 {
        lemma_normalize_scale(m / 10, (s - 1) as nat);
    }
}

/// The parsed value is always in normal form.
pub proof fn lemma_parse_variance_wf(s: Seq<u8>)
    ensures
        spec_parse_variance(s) matches Some(v) ==> v.wf(),
{
    if valid_variance_text(s) {
        let ds = spec_digits_of(s);
        lemma_normalize_scale(digits_val(ds), spec_scale_of(s));
        lemma_digits_val_bound(ds);
        lemma_find_bounds(s, 46, 0);
        assert(ds.len() <= 18);
        lemma_pow10_mono(ds.len() as nat, 18);
        lemma_pow10_values();
        assert(normalize(digits_val(ds), spec_scale_of(s)).0 < 1000000000000000000);
    }
}

/// Decimal digit characters of `n`, most significant first, no leading
/// zeros (except for `0` itself).
pub open spec fn dec_digits(n: nat) -> Seq<u8>
    decreases n,
{
    if n < 10 {
        seq![(n + 48) as u8]
    } else {
        dec_digits(n / 10).push(((n % 10) + 48) as u8)
    }
}

/// `n` written with leading zeros to exactly `width` digits.
pub open spec fn padded_digits(n: nat, width: nat) -> Seq<u8>
    decreases width,
{
    if width <= 1 {
        seq![((n % 10) + 48) as u8]
    } else {
        padded_digits(n / 10, (width - 1) as nat).push(((n % 10) + 48) as u8)
    }
}

/// The decimal text of a variance: the mantissa's digits, with a dot
/// before the last `scale` of them and a zero integer part when the value
/// is below one.
pub open spec fn spec_render_variance(v: Variance) -> Seq<u8> {
    if v.scale == 0 {
        dec_digits(v.mantissa as nat)
    } else {
        dec_digits((v.mantissa as nat) / pow10(v.scale as nat)) + seq![46u8] + padded_digits(
            (v.mantissa as nat) % pow10(v.scale as nat),
            v.scale as nat,
        )
    }
}

/// Append the decimal digits of `n`.
fn push_dec_digits(out: &mut Vec<u8>, n: u64)
    ensures
        final(out)@ == old(out)@ + dec_digits(n as nat),
    decreases n,
{
    if n < 10 {
        out.push((n as u8) + 48);
        assert(out@ =~= old(out)@ + dec_digits(n as nat));
    } else {
        push_dec_digits(out, n / 10);
        out.push(((n % 10) as u8) + 48);
        assert(out@ =~= old(out)@ + dec_digits(n as nat));
    }
}

/// Append `n` as exactly `width` digits, zero padded.
fn push_padded_digits(out: &mut Vec<u8>, n: u64, width: usize)
    requires
        width >= 1,
    ensures
        final(out)@ == old(out)@ + padded_digits(n as nat, width as nat),
    decreases width,
{
    if width == 1 {
        out.push(((n % 10) as u8) + 48);
        assert(out@ =~= old(out)@ + padded_digits(n as nat, width as nat));
    } else {
        push_padded_digits(out, n / 10, width - 1);
        out.push(((n % 10) as u8) + 48);
        assert(out@ =~= old(out)@ + padded_digits(n as nat, width as nat));
    }
}

/// 10 to the `n`th power, executably; `n` is capped so the result fits.
pub fn pow10_exec(n: usize) -> (r: u64)
    requires
        n <= 18,
    ensures
        r == pow10(n as nat),
{
    let mut r: u64 = 1;
    let mut i: usize = 0;
    proof {
        lemma_pow10_values();
    }
    while i < n
        invariant
            0 <= i <= n <= 18,
            r == pow10(i as nat),
            pow10(18) == 1000000000000000000,
        decreases n - i,
    {
        proof {
            lemma_pow10_mono((i + 1) as nat, 18);
            assert(pow10((i + 1) as nat) == 10 * pow10(i as nat));
        }
        r = r * 10;
        i = i + 1;
    }
    r
}

impl Variance {
    /// The decimal text of this variance.
    pub fn render(&self) -> (r: Vec<u8>)
        requires
            self.scale <= 18,
        ensures
            r@ == spec_render_variance(*self),
    {
        let mut out: Vec<u8> = Vec::new();
        if self.scale == 0 {
            push_dec_digits(&mut out, self.mantissa);
            assert(out@ =~= spec_render_variance(*self));
        } else {
            let p: u64 = pow10_exec(self.scale as usize);
            assert(p > 0) by {
                lemma_pow10_positive(self.scale as nat);
            }
            push_dec_digits(&mut out, self.mantissa / p);
            out.push(46);
            push_padded_digits(&mut out, self.mantissa % p, self.scale as usize);
            assert(out@ =~= spec_render_variance(*self));
        }
        out
    }
}

pub proof fn lemma_pow10_positive(n: nat)
    ensures
        pow10(n) > 0,
    decreases n,
{
    if n > 0 {
        lemma_pow10_positive((n - 1) as nat);
    }
}

proof fn lemma_dec_digits_are_digits(n: nat)
    ensures
        dec_digits(n).len() >= 1,
        all_digits(dec_digits(n), 0, dec_digits(n).len() as int),
    decreases n,
{
    if n >= 10 {
        lemma_dec_digits_are_digits(n / 10);
        assert forall|j: int| 0 <= j < dec_digits(n).len() implies is_digit(
            #[trigger] dec_digits(n)[j],
        ) by {
            if j < dec_digits(n / 10).len() {
                assert(dec_digits(n)[j] == dec_digits(n / 10)[j]);
            }
        }
    }
}

proof fn lemma_dec_digits_len(n: nat, k: nat)
    requires
        n < pow10(k),
        k >= 1,
    ensures
        dec_digits(n).len() <= k,
    decreases k,
{
    if n >= 10 {
        assert(k >= 2) by {
            assert(pow10(0) == 1);
            assert(pow10(1) == 10);
        }
        assert(pow10(k) == 10 * pow10((k - 1) as nat));
        assert(n / 10 < pow10((k - 1) as nat)) by (nonlinear_arith)
            requires
                n < 10 * pow10((k - 1) as nat),
        ;
        lemma_dec_digits_len(n / 10, (k - 1) as nat);
    }
}

proof fn lemma_digits_val_dec(n: nat)
    ensures
        digits_val(dec_digits(n)) == n,
    decreases n,
{
    if n < 10 {
        assert(dec_digits(n) =~= seq![(n + 48) as u8]);
        assert(seq![(n + 48) as u8].drop_last() =~= Seq::<u8>::empty());
        assert(digits_val(Seq::<u8>::empty()) == 0);
        assert(digits_val(seq![(n + 48) as u8]) == digit_val((n + 48) as u8));
    } else {
        lemma_digits_val_dec(n / 10);
        let s = dec_digits(n);
        assert(s.drop_last() =~= dec_digits(n / 10));
        assert(digit_val(s.last()) == n % 10);
    }
}

proof fn lemma_digits_val_padded(n: nat, w: nat)
    requires
        w >= 1,
        n < pow10(w),
    ensures
        padded_digits(n, w).len() == w,
        all_digits(padded_digits(n, w), 0, w as int),
        digits_val(padded_digits(n, w)) == n,
    decreases w,
{
    if w == 1 {
        assert(pow10(0) == 1);
        assert(pow10(1) == 10);
        assert(padded_digits(n, w) =~= seq![((n % 10) + 48) as u8]);
        assert(seq![((n % 10) + 48) as u8].drop_last() =~= Seq::<u8>::empty());
        assert(digits_val(Seq::<u8>::empty()) == 0);
        assert(digits_val(seq![((n % 10) + 48) as u8]) == digit_val(((n % 10) + 48) as u8));
        assert(n % 10 == n);
    } else {
        assert(pow10(w) == 10 * pow10((w - 1) as nat));
        assert(n / 10 < pow10((w - 1) as nat)) by (nonlinear_arith)
            requires
                n < 10 * pow10((w - 1) as nat),
        ;
        lemma_digits_val_padded(n / 10, (w - 1) as nat);
        let s = padded_digits(n, w);
        assert(s.drop_last() =~= padded_digits(n / 10, (w - 1) as nat));
        assert(digit_val(s.last()) == n % 10);
        assert forall|j: int| 0 <= j < w implies is_digit(#[trigger] s[j]) by {
            if j < w - 1 {
                assert(s[j] == padded_digits(n / 10, (w - 1) as nat)[j]);
            }
        }
    }
}

proof fn lemma_digits_val_concat(a: Seq<u8>, b: Seq<u8>)
    ensures
        digits_val(a + b) == digits_val(a) * pow10(b.len()) + digits_val(b),
    decreases b.len(),
{
    if b.len() == 0 {
        assert(a + b =~= a);
        assert(pow10(0) == 1);
    } else {
        lemma_digits_val_concat(a, b.drop_last());
        assert((a + b).drop_last() =~= a + b.drop_last());
        assert((a + b).last() == b.last());
        assert(pow10(b.len()) == 10 * pow10((b.len() - 1) as nat));
        assert(digits_val(a) * (10 * pow10((b.len() - 1) as nat)) == (digits_val(a) * pow10(
            (b.len() - 1) as nat,
        )) * 10) by (nonlinear_arith);
    }
}

proof fn lemma_find_first(s: Seq<u8>, b: u8, i: int, d: int)
    requires
        0 <= i <= d <= s.len(),
        forall|j: int| i <= j < d ==> s[j] != b,
        d < s.len() ==> s[d] == b,
    ensures
        spec_find(s, b, i) == if d < s.len() {
            d
        } else {
            s.len() as int
        },
    decreases d - i,
{
    if i < d {
        lemma_find_first(s, b, i + 1, d);
    }
}

proof fn lemma_div_pow10(n: nat, w: nat, k: nat)
    requires
        n < pow10(w + k),
    ensures
        n / pow10(w) < pow10(k),
    decreases w,
{
    lemma_pow10_positive(w);
    if w == 0 {
        assert(pow10(0) == 1);
        assert(n / 1 == n);
    } else {
        assert(pow10(w + k) == 10 * pow10((w + k - 1) as nat));
        assert(n / 10 < pow10((w - 1 + k) as nat)) by (nonlinear_arith)
            requires
                n < 10 * pow10((w + k - 1) as nat),
                (w - 1 + k) as nat == (w + k - 1) as nat,
        ;
        lemma_div_pow10(n / 10, (w - 1) as nat, k);
        lemma_pow10_positive((w - 1) as nat);
        assert(n / pow10(w) == (n / 10) / pow10((w - 1) as nat)) by {
            vstd::arithmetic::div_mod::lemma_div_denominator(
                n as int,
                10,
                pow10((w - 1) as nat) as int,
            );
            assert(pow10(w) == 10 * pow10((w - 1) as nat));
        }
    }
}

/// Rendering a normalized variance and parsing the result gives the
/// variance back: the decimal text form loses nothing. The bounds are the
/// ones every parsed variance satisfies.
pub proof fn lemma_variance_round_trip(v: Variance)
    requires
        v.wf(),
        (v.mantissa as nat) < pow10(18),
        v.scale <= 17,
    ensures
        spec_parse_variance(spec_render_variance(v)) == Some(v),
{
    let m = v.mantissa as nat;
    let w = v.scale as nat;
    lemma_pow10_values();
    if w == 0 {
        let s = dec_digits(m);
        lemma_dec_digits_are_digits(m);
        lemma_dec_digits_len(m, 18);
        lemma_find_first(s, 46, 0, s.len() as int);
        assert(valid_variance_text(s));
        assert(spec_digits_of(s) == s);
        assert(spec_scale_of(s) == 0);
        lemma_digits_val_dec(m);
        assert(normalize(m, 0) == (m, 0nat));
    } else {
        let p = pow10(w);
        lemma_pow10_positive(w);
        let int_part = m / p;
        let frac_part = m % p;
        let a = dec_digits(int_part);
        let b = padded_digits(frac_part, w);
        let s = a + seq![46u8] + b;
        assert(spec_render_variance(v) == s);
        lemma_dec_digits_are_digits(int_part);
        let d = a.len() as int;
        lemma_digits_val_padded(frac_part, w);
        // Total length within the cap: the integer part's digits plus the
        // scale never pass eighteen.
        if m < p {
            assert(int_part == 0) by (nonlinear_arith)
                requires
                    m < p,
                    p > 0,
                    int_part == m / p,
            ;
            assert(a =~= seq![48u8]);
            assert(d == 1);
        } else {
            lemma_div_pow10(m, w, (18 - w) as nat);
            assert(pow10((18 - w) as nat) >= 1) by {
                lemma_pow10_positive((18 - w) as nat);
            }
            assert(18 - w >= 1);
            lemma_dec_digits_len(int_part, (18 - w) as nat);
            assert(d <= 18 - w);
        }
        assert(s.len() == d + 1 + w);
        assert(s[d] == 46);
        assert forall|j: int| 0 <= j < d implies s[j] != 46 by {
            assert(s[j] == a[j]);
            assert(is_digit(a[j]));
        }
        lemma_find_first(s, 46, 0, d);
        assert(spec_find(s, 46, 0) == d);
        assert(s.subrange(0, d) =~= a);
        assert(s.subrange(d + 1, s.len() as int) =~= b);
        assert(valid_variance_text(s));
        assert(spec_digits_of(s) =~= a + b);
        assert(spec_scale_of(s) == w);
        lemma_digits_val_concat(a, b);
        lemma_digits_val_dec(int_part);
        assert(digits_val(a + b) == int_part * p + frac_part);
        assert(int_part * p + frac_part == m) by {
            vstd::arithmetic::div_mod::lemma_fundamental_div_mod(m as int, p as int);
        }
        assert(m % 10 != 0);
        assert(normalize(m, w) == (m, w));
    }
}

pub proof fn lemma_digits_val_bound(s: Seq<u8>)
    ensures
        digits_val(s) < pow10(s.len() as nat),
    decreases s.len(),
{
    if s.len() > 0 {
        lemma_digits_val_bound(s.drop_last());
        assert(pow10(s.len() as nat) == 10 * pow10((s.len() - 1) as nat));
        assert(digit_val(s.last()) <= 9);
    }
}

} // verus!
