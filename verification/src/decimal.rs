//! Exact decimal numbers.
//!
//! The exchange transmits monetary quantities as decimal text, sometimes
//! quoted and sometimes bare. The library keeps them exact: a value is a
//! sign, an integer mantissa and a decimal scale, so `"1.50"` is mantissa
//! `150` at scale `2`. Parsing and rendering are inverse to each other, and
//! arithmetic is exact or refused — nothing is rounded.

use vstd::arithmetic::power::pow;
use vstd::prelude::*;

use crate::text::dec_chars;

verus! {

/// Mantissas stay below this bound (eighteen decimal digits), so every
/// aligned product in comparisons and sums fits comfortably in 128 bits.
pub const MANTISSA_LIMIT: u64 = 1_000_000_000_000_000_000;

/// The largest scale a parsed value may carry: as many digits after the
/// point as a mantissa may have in total.
pub const MAX_SCALE: u32 = 18;

/// An exact decimal number: `(-1)^negative * mantissa / 10^scale`.
#[derive(Clone, Copy, Debug, PartialEq, Eq, Structural)]
pub struct Decimal {
    pub negative: bool,
    pub mantissa: u64,
    pub scale: u32,
}

/// A well-formed decimal: mantissa and scale within the library's bounds.
pub open spec fn dec_wf(d: Decimal) -> bool {
    d.mantissa < MANTISSA_LIMIT && d.scale <= MAX_SCALE
}

/// The value of `d`, scaled by `10^18` so that every well-formed decimal is
/// an integer: `val18(d) = (-1)^negative * mantissa * 10^(18 - scale)`.
pub open spec fn val18(d: Decimal) -> int
    recommends
        dec_wf(d),
{
    (if d.negative {
        -(d.mantissa as int)
    } else {
        d.mantissa as int
    }) * pow(10, (MAX_SCALE - d.scale) as nat)
}

/// Is `c` a decimal digit?
pub open spec fn is_digit(c: char) -> bool {
    '0' <= c && c <= '9'
}

/// The numeric value of a digit character.
pub open spec fn digit_val(c: char) -> int {
    c as u32 - '0' as u32
}

pub open spec fn all_digits(s: Seq<char>) -> bool {
    forall|i: int| 0 <= i < s.len() ==> is_digit(#[trigger] s[i])
}

/// The number spelled by a string of digits, leading zeros allowed.
pub open spec fn digits_val(s: Seq<char>) -> int
    decreases s.len(),
{
    if s.len() == 0 {
        0
    } else {
        digits_val(s.drop_last()) * 10 + digit_val(s.last())
    }
}

/// The position of the first `'.'` in `s`, if any.
pub open spec fn first_dot(s: Seq<char>) -> Option<int>
    decreases s.len(),
{
    if s.len() == 0 {
        None
    } else if s[0] == '.' {
        Some(0)
    } else {
        match first_dot(s.drop_first()) {
            Some(i) => Some(i + 1),
            None => None,
        }
    }
}

/// Parse an unsigned decimal: digits, optionally followed by a point and
/// more digits. Rejects an empty integer part, an empty fraction, a second
/// point, any non-digit, a mantissa at or above [`MANTISSA_LIMIT`], and a
/// fraction longer than [`MAX_SCALE`].
pub open spec fn dec_parse_unsigned(s: Seq<char>, negative: bool) -> Option<Decimal> {
    match first_dot(s) {
        None => if s.len() >= 1 && all_digits(s) && digits_val(s) < MANTISSA_LIMIT {
            Some(Decimal { negative, mantissa: digits_val(s) as u64, scale: 0 })
        } else {
            None
        },
        Some(dot) => {
            let ip = s.take(dot);
            let fp = s.skip(dot + 1);
            if ip.len() >= 1 && fp.len() >= 1 && all_digits(ip) && all_digits(fp) && fp.len()
                <= MAX_SCALE && digits_val(ip + fp) < MANTISSA_LIMIT {
                Some(
                    Decimal {
                        negative,
                        mantissa: digits_val(ip + fp) as u64,
                        scale: fp.len() as u32,
                    },
                )
            } else {
                None
            }
        },
    }
}

/// Parse decimal text: an optional leading `'-'`, then an unsigned decimal.
pub open spec fn dec_parse(s: Seq<char>) -> Option<Decimal> {
    if s.len() >= 1 && s[0] == '-' {
        dec_parse_unsigned(s.drop_first(), true)
    } else {
        dec_parse_unsigned(s, false)
    }
}

/// `n` zeros.
pub open spec fn zeros(n: int) -> Seq<char> {
    Seq::new(n as nat, |i: int| '0')
}

/// The canonical rendering of `d`: sign, integer part, and — when the scale
/// is positive — a point and exactly `scale` fraction digits.
pub open spec fn dec_render(d: Decimal) -> Seq<char>
    recommends
        dec_wf(d),
{
    let sign = if d.negative {
        seq!['-']
    } else {
        Seq::<char>::empty()
    };
    if d.scale == 0 {
        sign + crate::text::dec_chars(d.mantissa as int)
    } else {
        let p = pow(10, d.scale as nat);
        let frac = d.mantissa as int % p;
        let fd = crate::text::dec_chars(frac);
        sign + crate::text::dec_chars(d.mantissa as int / p) + seq!['.'] + zeros(
            d.scale - fd.len(),
        ) + fd
    }
}

proof fn lemma_pow10_18()
    ensures
        pow(10, 0) == 1,
        pow(10, 18) == 1_000_000_000_000_000_000,
{
    reveal_with_fuel(pow, 19);
}

proof fn lemma_digits_val_nonneg(s: Seq<char>)
    requires
        all_digits(s),
    ensures
        digits_val(s) >= 0,
    decreases s.len(),
{
    if s.len() > 0 {
        lemma_digits_val_nonneg(s.drop_last());
    }
}

proof fn lemma_digits_val_append(a: Seq<char>, b: Seq<char>)
    ensures
        digits_val(a + b) == digits_val(a) * pow(10, b.len()) + digits_val(b),
    decreases b.len(),
{
    vstd::arithmetic::power::lemma_pow_positive(10, b.len());
    if b.len() == 0 {
        assert(a + b =~= a);
        vstd::arithmetic::power::lemma_pow0(10);
    } else {
        lemma_digits_val_append(a, b.drop_last());
        assert((a + b).drop_last() =~= a + b.drop_last());
        assert((a + b).last() == b.last());
        vstd::arithmetic::power::lemma_pow1(10);
        vstd::arithmetic::power::lemma_pow_adds(10, 1, (b.len() - 1) as nat);
        assert(pow(10, b.len()) == 10 * pow(10, (b.len() - 1) as nat));
        assert(digits_val(a + b) == (digits_val(a) * pow(10, (b.len() - 1) as nat) + digits_val(
            b.drop_last(),
        )) * 10 + digit_val(b.last()));
        assert(digits_val(a) * pow(10, (b.len() - 1) as nat) * 10 == digits_val(a) * pow(
            10,
            b.len(),
        )) by (nonlinear_arith)
            requires
                pow(10, b.len()) == 10 * pow(10, (b.len() - 1) as nat),
        ;
    }
}

/// Once an all-digit prefix has reached the mantissa bound, no all-digit
/// extension comes back below it.
proof fn lemma_digits_val_extend_ge(a: Seq<char>, b: Seq<char>, bound: int)
    requires
        digits_val(a) >= bound,
        bound >= 0,
        all_digits(b),
    ensures
        digits_val(a + b) >= bound,
{
    lemma_digits_val_append(a, b);
    lemma_digits_val_nonneg(b);
    vstd::arithmetic::power::lemma_pow_positive(10, b.len());
    assert(digits_val(a) * pow(10, b.len()) >= bound) by (nonlinear_arith)
        requires
            digits_val(a) >= bound,
            bound >= 0,
            pow(10, b.len()) >= 1,
    ;
}

proof fn lemma_first_dot_none(s: Seq<char>)
    requires
        forall|i: int| 0 <= i < s.len() ==> #[trigger] s[i] != '.',
    ensures
        first_dot(s) is None,
    decreases s.len(),
{
    if s.len() > 0 {
        lemma_first_dot_none(s.drop_first());
    }
}

proof fn lemma_first_dot_at(s: Seq<char>, k: int)
    requires
        0 <= k < s.len(),
        s[k] == '.',
        forall|i: int| 0 <= i < k ==> #[trigger] s[i] != '.',
    ensures
        first_dot(s) == Some(k),
    decreases s.len(),
{
    if k > 0 {
        lemma_first_dot_at(s.drop_first(), k - 1);
    }
}

/// The digits of a rendered number: every character is a digit, reading
/// them back gives the number, and at least one digit is produced.
proof fn lemma_dec_chars_digits(n: int)
    requires
        n >= 0,
    ensures
        all_digits(crate::text::dec_chars(n)),
        digits_val(crate::text::dec_chars(n)) == n,
        crate::text::dec_chars(n).len() >= 1,
    decreases n,
{
    if n < 10 {
        let c = crate::text::digit_char(n);
        assert(is_digit(c));
        assert(seq![c].drop_last() =~= Seq::<char>::empty());
        assert(seq![c].last() == c);
        assert(digit_val(c) == n);
        assert(dec_chars(n) == seq![c]);
        assert(digits_val(seq![c]) == digits_val(seq![c].drop_last()) * 10 + digit_val(c));
        assert(digits_val(seq![c].drop_last()) == 0);
        assert(digits_val(dec_chars(n)) == n);
    } else {
        lemma_dec_chars_digits(n / 10);
        vstd::arithmetic::div_mod::lemma_fundamental_div_mod(n, 10);
        let t = crate::text::dec_chars(n / 10);
        let c = crate::text::digit_char(n % 10);
        assert(0 <= n % 10 < 10);
        assert(t.push(c).drop_last() =~= t);
        assert(t.push(c).last() == c);
        assert(is_digit(c));
        assert(digit_val(c) == n % 10);
        assert(dec_chars(n) == t.push(c));
        assert(digits_val(t.push(c)) == digits_val(t) * 10 + digit_val(c));
        assert forall|j: int| 0 <= j < t.push(c).len() implies is_digit(
            #[trigger] t.push(c)[j],
        ) by {
            if j < t.len() {
                assert(t.push(c)[j] == t[j]);
            }
        }
        assert(digits_val(dec_chars(n)) == n);
    }
}

/// A number below `10^k` renders in at most `k` digits.
proof fn lemma_dec_chars_len(n: int, k: nat)
    requires
        0 <= n < pow(10, k),
        k >= 1,
    ensures
        crate::text::dec_chars(n).len() <= k,
    decreases k,
{
    if n >= 10 {
        vstd::arithmetic::power::lemma_pow1(10);
        vstd::arithmetic::power::lemma_pow_adds(10, 1, (k - 1) as nat);
        assert(pow(10, k) == 10 * pow(10, (k - 1) as nat));
        vstd::arithmetic::div_mod::lemma_fundamental_div_mod(n, 10);
        assert(n / 10 < pow(10, (k - 1) as nat)) by (nonlinear_arith)
            requires
                n < pow(10, k),
                n >= 10,
                pow(10, k) == 10 * pow(10, (k - 1) as nat),
                n == 10 * (n / 10) + n % 10,
                0 <= n % 10 < 10,
        ;
        if k == 1 {
            vstd::arithmetic::power::lemma_pow0(10);
            assert(crate::text::dec_chars(n / 10).len() <= 0 + 1);
        } else {
            lemma_dec_chars_len(n / 10, (k - 1) as nat);
        }
    }
}

/// `10^k` as a machine integer, for scales up to [`MAX_SCALE`].
pub fn pow10_u64(k: u32) -> (r: u64)
    requires
        k <= MAX_SCALE,
    ensures
        r as int == pow(10, k as nat),
        1 <= r <= MANTISSA_LIMIT,
{
    let mut r: u64 = 1;
    let mut i: u32 = 0;
    proof {
        lemma_pow10_18();
    }
    while i < k
        invariant
            i <= k <= MAX_SCALE,
            r >= 1,
            r as int == pow(10, i as nat),
            pow(10, 18) == 1_000_000_000_000_000_000,
        decreases k - i,
    {
        proof {
            vstd::arithmetic::power::lemma_pow1(10);
            vstd::arithmetic::power::lemma_pow_adds(10, 1, i as nat);
            assert(pow(10, (i + 1) as nat) == 10 * pow(10, i as nat));
            vstd::arithmetic::power::lemma_pow_increases(10, (i + 1) as nat, 18);
        }
        r = r * 10;
        i = i + 1;
    }
    proof {
        vstd::arithmetic::power::lemma_pow_increases(10, k as nat, 18);
    }
    r
}

/// Scan `s[from..to]` as digits, accumulating the mantissa. `None` exactly
/// when a character is not a digit or the value reaches the mantissa bound.
fn scan_digits(s: &str, from: usize, to: usize) -> (r: Option<u64>)
    requires
        from <= to <= s@.len(),
    ensures
        ({
            let part = s@.subrange(from as int, to as int);
            match r {
                Some(m) => all_digits(part) && m == digits_val(part) && m < MANTISSA_LIMIT,
                None => !(all_digits(part) && digits_val(part) < MANTISSA_LIMIT),
            }
        }),
{
    let ghost part = s@.subrange(from as int, to as int);
    let mut m: u64 = 0;
    let mut i: usize = from;
    while i < to
        invariant
            from <= i <= to <= s@.len(),
            part == s@.subrange(from as int, to as int),
            all_digits(s@.subrange(from as int, i as int)),
            m == digits_val(s@.subrange(from as int, i as int)),
            m < MANTISSA_LIMIT,
        decreases to - i,
    {
        let ghost prefix = s@.subrange(from as int, i as int);
        let c = s.get_char(i);
        let v = c as u32;
        if v < 48 || v > 57 {
            proof {
                assert(part[i - from] == c);
                assert(!is_digit(c));
            }
            return None;
        }
        let d = (v - 48) as u64;
        proof {
            assert(is_digit(c) && digit_val(c) == d);
        }
        let m2 = m * 10 + d;
        proof {
            assert(s@.subrange(from as int, (i + 1) as int) =~= prefix.push(c));
            assert(prefix.push(c).drop_last() =~= prefix);
            assert(digits_val(prefix.push(c)) == m * 10 + d);
        }
        if m2 >= MANTISSA_LIMIT {
            proof {
                let done = s@.subrange(from as int, (i + 1) as int);
                let rest = s@.subrange((i + 1) as int, to as int);
                assert(part =~= done + rest);
                if all_digits(part) {
                    assert forall|j: int| 0 <= j < rest.len() implies is_digit(
                        #[trigger] rest[j],
                    ) by {
                        assert(part[j + (i + 1 - from)] == rest[j]);
                    }
                    lemma_digits_val_extend_ge(done, rest, MANTISSA_LIMIT as int);
                }
            }
            return None;
        }
        m = m2;
        i = i + 1;
    }
    Some(m)
}

proof fn lemma_zeros_digits(n: int)
    requires
        n >= 0,
    ensures
        all_digits(zeros(n)),
        digits_val(zeros(n)) == 0,
        forall|i: int| 0 <= i < n ==> zeros(n)[i] == '0',
    decreases n,
{
    if n > 0 {
        lemma_zeros_digits(n - 1);
        assert(zeros(n).drop_last() =~= zeros(n - 1));
        assert(zeros(n).last() == '0');
        assert(digit_val('0') == 0);
    }
}

impl Decimal {
    /// Parse decimal text exactly as [`dec_parse`] describes: an optional
    /// sign, digits, and at most one point with digits after it.
    pub fn parse(s: &str) -> (r: Option<Decimal>)
        ensures
            r == dec_parse(s@),
    {
        let len = s.unicode_len();
        let negative = len > 0 && s.get_char(0) == '-';
        let start: usize = if negative {
            1
        } else {
            0
        };
        let ghost t = s@.skip(start as int);
        proof {
            if negative {
                assert(t =~= s@.drop_first());
            } else {
                assert(t =~= s@);
            }
        }
        // Find the first point, if any.
        let mut i: usize = start;
        while i < len && s.get_char(i) != '.'
            invariant
                start <= i <= len == s@.len(),
                forall|j: int| start <= j < i ==> #[trigger] s@[j] != '.',
            decreases len - i,
        {
            i = i + 1;
        }
        let dot: Option<usize> = if i < len {
            Some(i)
        } else {
            None
        };
        match dot {
            None => {
                proof {
                    assert forall|j: int| 0 <= j < t.len() implies #[trigger] t[j] != '.' by {
                        assert(t[j] == s@[j + start]);
                    }
                    lemma_first_dot_none(t);
                }
                match scan_digits(s, start, len) {
                    Some(m) => {
                        proof {
                            assert(t =~= s@.subrange(start as int, len as int));
                        }
                        if len - start >= 1 {
                            Some(Decimal { negative, mantissa: m, scale: 0 })
                        } else {
                            None
                        }
                    },
                    None => {
                        proof {
                            assert(t =~= s@.subrange(start as int, len as int));
                        }
                        None
                    },
                }
            },
            Some(d) => {
                proof {
                    assert(t[d - start] == s@[d as int]);
                    assert forall|j: int| 0 <= j < d - start implies #[trigger] t[j] != '.' by {
                        assert(t[j] == s@[j + start]);
                    }
                    lemma_first_dot_at(t, d - start);
                }
                let ghost ip = t.take(d - start);
                let ghost fp = t.skip(d - start + 1);
                if d - start < 1 || len - (d + 1) < 1 || len - (d + 1) > 18 {
                    proof {
                        assert(ip.len() == d - start);
                        assert(fp.len() == len - (d + 1));
                    }
                    return None;
                }
                match scan_digits(s, start, d) {
                    None => {
                        proof {
                            assert(ip =~= s@.subrange(start as int, d as int));
                            if all_digits(ip + fp) && digits_val(ip + fp) < MANTISSA_LIMIT {
                                vstd::arithmetic::power::lemma_pow_positive(10, fp.len());
                                assert forall|j: int| 0 <= j < ip.len() implies is_digit(
                                    #[trigger] ip[j],
                                ) by {
                                    assert((ip + fp)[j] == ip[j]);
                                }
                                lemma_digits_val_append(ip, fp);
                                lemma_digits_val_nonneg(ip);
                                assert forall|j: int| 0 <= j < fp.len() implies is_digit(
                                    #[trigger] fp[j],
                                ) by {
                                    assert((ip + fp)[j + ip.len()] == fp[j]);
                                }
                                lemma_digits_val_nonneg(fp);
                                vstd::arithmetic::power::lemma_pow_positive(10, fp.len());
                                assert(digits_val(ip) * pow(10, fp.len()) >= digits_val(ip))
                                    by (nonlinear_arith)
                                    requires
                                        digits_val(ip) >= 0,
                                        pow(10, fp.len()) >= 1,
                                ;
                            }
                        }
                        None
                    },
                    Some(mi) => {
                        match scan_digits(s, d + 1, len) {
                            None => {
                                proof {
                                    assert(fp =~= s@.subrange((d + 1) as int, len as int));
                                    if all_digits(ip + fp) && digits_val(ip + fp)
                                        < MANTISSA_LIMIT {
                                        vstd::arithmetic::power::lemma_pow_positive(10, fp.len());
                                        assert forall|j: int| 0 <= j < fp.len() implies is_digit(
                                            #[trigger] fp[j],
                                        ) by {
                                            assert((ip + fp)[j + ip.len()] == fp[j]);
                                        }
                                        lemma_digits_val_append(ip, fp);
                                        lemma_digits_val_nonneg(ip);
                                        assert forall|j: int|
                                            0 <= j < ip.len() implies is_digit(
                                            #[trigger] ip[j],
                                        ) by {
                                            assert((ip + fp)[j] == ip[j]);
                                        }
                                        vstd::arithmetic::power::lemma_pow_positive(10, fp.len());
                                        assert(digits_val(ip) * pow(10, fp.len()) >= 0)
                                            by (nonlinear_arith)
                                            requires
                                                digits_val(ip) >= 0,
                                                pow(10, fp.len()) >= 1,
                                        ;
                                    }
                                }
                                None
                            },
                            Some(mf) => {
                                proof {
                                    assert(ip =~= s@.subrange(start as int, d as int));
                                    assert(fp =~= s@.subrange((d + 1) as int, len as int));
                                    lemma_digits_val_append(ip, fp);
                                    lemma_digits_val_nonneg(ip);
                                    lemma_digits_val_nonneg(fp);
                                    assert forall|j: int| 0 <= j < (ip + fp).len() implies is_digit(
                                        #[trigger] (ip + fp)[j],
                                    ) by {
                                        if j < ip.len() {
                                            assert((ip + fp)[j] == ip[j]);
                                        } else {
                                            assert((ip + fp)[j] == fp[j - ip.len()]);
                                        }
                                    }
                                }
                                // The combined mantissa: integer digits shifted
                                // left by the fraction's width.
                                let width = (len - (d + 1)) as u32;
                                let f = pow10_u64(width);
                                proof {
                                    assert(mi as int * f as int
                                        <= 1_000_000_000_000_000_000_000_000_000_000_000_000int)
                                        by (nonlinear_arith)
                                        requires
                                            0 <= mi as int,
                                            (mi as int) < 1_000_000_000_000_000_000int,
                                            0 <= f as int,
                                            (f as int) <= 1_000_000_000_000_000_000int,
                                    ;
                                }
                                let wide: u128 = mi as u128 * f as u128 + mf as u128;
                                if wide >= MANTISSA_LIMIT as u128 {
                                    None
                                } else {
                                    Some(
                                        Decimal {
                                            negative,
                                            mantissa: wide as u64,
                                            scale: width,
                                        },
                                    )
                                }
                            },
                        }
                    },
                }
            },
        }
    }

    /// Render the value as the canonical decimal text of [`dec_render`].
    pub fn render(&self) -> (r: String)
        requires
            dec_wf(*self),
        ensures
            r@ == dec_render(*self),
    {
        let mut out = String::new();
        if self.negative {
            crate::text::push_char(&mut out, '-');
        }
        let ghost sign = if self.negative {
            seq!['-']
        } else {
            Seq::<char>::empty()
        };
        proof {
            assert(out@ =~= sign);
        }
        if self.scale == 0 {
            let digits = crate::text::u64_to_string(self.mantissa);
            out.append(digits.as_str());
            proof {
                assert(out@ =~= dec_render(*self));
            }
            out
        } else {
            let p = pow10_u64(self.scale);
            let ip = self.mantissa / p;
            let fr = self.mantissa % p;
            let digits = crate::text::u64_to_string(ip);
            out.append(digits.as_str());
            crate::text::push_char(&mut out, '.');
            let fd = crate::text::u64_to_string(fr);
            let fd_len = fd.as_str().unicode_len();
            proof {
                vstd::arithmetic::power::lemma_pow_positive(10, self.scale as nat);
                lemma_dec_chars_len(fr as int, self.scale as nat);
                assert(out@ =~= sign + dec_chars(ip as int) + seq!['.']);
            }
            let pad = self.scale as usize - fd_len;
            let mut k: usize = 0;
            while k < pad
                invariant
                    k <= pad,
                    out@ =~= sign + dec_chars(ip as int) + seq!['.'] + zeros(k as int),
                decreases pad - k,
            {
                crate::text::push_char(&mut out, '0');
                proof {
                    assert(zeros(k + 1).drop_last() =~= zeros(k as int));
                    assert(out@ =~= sign + dec_chars(ip as int) + seq!['.'] + zeros(k + 1));
                }
                k = k + 1;
            }
            out.append(fd.as_str());
            proof {
                assert(out@ =~= dec_render(*self));
            }
            out
        }
    }

    /// Do the two values denote the same number? `1.50` equals `1.5`, and a
    /// negative zero equals zero.
    pub fn eq_value(&self, other: &Decimal) -> (r: bool)
        requires
            dec_wf(*self),
            dec_wf(*other),
        ensures
            r == (val18(*self) == val18(*other)),
    {
        let pa = pow10_u64(other.scale);
        let pb = pow10_u64(self.scale);
        proof {
            lemma_mul_fits_u128(self.mantissa as int, pa as int);
            lemma_mul_fits_u128(other.mantissa as int, pb as int);
        }
        let a: u128 = self.mantissa as u128 * pa as u128;
        let b: u128 = other.mantissa as u128 * pb as u128;
        let r = a == b && (a == 0 || self.negative == other.negative);
        proof {
            lemma_cross_val18(*self, *other, pa as int, pb as int);
        }
        r
    }

    /// Exact addition: the sum at the wider of the two scales, or `None`
    /// when its mantissa would leave the representable range. Nothing is
    /// ever rounded.
    pub fn checked_add(&self, other: &Decimal) -> (r: Option<Decimal>)
        requires
            dec_wf(*self),
            dec_wf(*other),
        ensures
            match r {
                Some(sum) => dec_wf(sum) && sum.scale == max_scale_of(*self, *other) && val18(sum)
                    == val18(*self) + val18(*other),
                None => abs_of(val18(*self) + val18(*other)) >= MANTISSA_LIMIT * pow(
                    10,
                    (MAX_SCALE - max_scale_of(*self, *other)) as nat,
                ),
            },
    {
        let smax = if self.scale >= other.scale {
            self.scale
        } else {
            other.scale
        };
        let f1 = pow10_u64(smax - self.scale);
        let f2 = pow10_u64(smax - other.scale);
        proof {
            lemma_mul_fits_u128(self.mantissa as int, f1 as int);
            lemma_mul_fits_u128(other.mantissa as int, f2 as int);
        }
        let a: i128 = self.mantissa as i128 * f1 as i128;
        let b: i128 = other.mantissa as i128 * f2 as i128;
        let sa: i128 = if self.negative {
            -a
        } else {
            a
        };
        let sb: i128 = if other.negative {
            -b
        } else {
            b
        };
        let sum: i128 = sa + sb;
        let negative = sum < 0;
        let magnitude: i128 = if sum < 0 {
            -sum
        } else {
            sum
        };
        proof {
            lemma_add_aligned(*self, *other, smax, f1 as int, f2 as int);
            let q = pow(10, (MAX_SCALE - smax) as nat);
            assert((sa as int + sb as int) * q == sa as int * q + sb as int * q)
                by (nonlinear_arith);
            assert(val18(*self) + val18(*other) == sum as int * q);
        }
        if magnitude >= MANTISSA_LIMIT as i128 {
            proof {
                lemma_scaled_bound(sum as int, smax);
            }
            None
        } else {
            let d = Decimal { negative, mantissa: magnitude as u64, scale: smax };
            proof {
                lemma_scaled_value(sum as int, d);
            }
            Some(d)
        }
    }
}

/// The wider of the two scales.
pub open spec fn max_scale_of(a: Decimal, b: Decimal) -> u32 {
    if a.scale >= b.scale {
        a.scale
    } else {
        b.scale
    }
}

/// The absolute value.
pub open spec fn abs_of(n: int) -> int {
    if n < 0 {
        -n
    } else {
        n
    }
}

/// A mantissa times a scale factor stays far inside 128 bits.
proof fn lemma_mul_fits_u128(m: int, p: int)
    requires
        0 <= m < MANTISSA_LIMIT,
        0 <= p <= MANTISSA_LIMIT,
    ensures
        0 <= m * p <= 1_000_000_000_000_000_000_000_000_000_000_000_000int,
{
    assert(0 <= m * p <= 1_000_000_000_000_000_000_000_000_000_000_000_000int)
        by (nonlinear_arith)
        requires
            0 <= m,
            m < 1_000_000_000_000_000_000int,
            0 <= p,
            p <= 1_000_000_000_000_000_000int,
    ;
}

/// Cross-multiplied mantissas decide value equality: with both values
/// brought to a common denominator, `val18` agrees exactly when the
/// magnitudes agree and, unless both are zero, so do the signs.
proof fn lemma_cross_val18(d1: Decimal, d2: Decimal, pa: int, pb: int)
    requires
        dec_wf(d1),
        dec_wf(d2),
        pa == pow(10, d2.scale as nat),
        pb == pow(10, d1.scale as nat),
    ensures
        (val18(d1) == val18(d2)) == ((d1.mantissa as int * pa == d2.mantissa as int * pb) && (
        d1.mantissa as int * pa == 0 || d1.negative == d2.negative)),
{
    let e1 = (MAX_SCALE - d1.scale) as nat;
    let e2 = (MAX_SCALE - d2.scale) as nat;
    let sm1 = if d1.negative {
        -(d1.mantissa as int)
    } else {
        d1.mantissa as int
    };
    let sm2 = if d2.negative {
        -(d2.mantissa as int)
    } else {
        d2.mantissa as int
    };
    vstd::arithmetic::power::lemma_pow_adds(10, e1, d1.scale as nat);
    vstd::arithmetic::power::lemma_pow_adds(10, e2, d2.scale as nat);
    vstd::arithmetic::power::lemma_pow_positive(10, e1);
    vstd::arithmetic::power::lemma_pow_positive(10, e2);
    vstd::arithmetic::power::lemma_pow_positive(10, d1.scale as nat);
    vstd::arithmetic::power::lemma_pow_positive(10, d2.scale as nat);
    vstd::arithmetic::power::lemma_pow_positive(10, 18);
    assert((sm1 * pow(10, e1) == sm2 * pow(10, e2)) == (sm1 * pa == sm2 * pb))
        by (nonlinear_arith)
        requires
            pow(10, e1) * pow(10, d1.scale as nat) == pow(10, 18),
            pow(10, e2) * pow(10, d2.scale as nat) == pow(10, 18),
            pa == pow(10, d2.scale as nat),
            pb == pow(10, d1.scale as nat),
            pow(10, e1) > 0,
            pow(10, e2) > 0,
            pa > 0,
            pb > 0,
            pow(10, 18) > 0,
    ;
    if d1.mantissa as int * pa == 0 {
        assert(d1.mantissa == 0) by (nonlinear_arith)
            requires
                d1.mantissa as int * pa == 0,
                pa > 0,
                d1.mantissa >= 0,
        ;
    }
    if sm1 * pa == sm2 * pb {
        if d1.mantissa as int * pa != 0 && d1.negative != d2.negative {
            assert(false) by (nonlinear_arith)
                requires
                    sm1 * pa == sm2 * pb,
                    sm1 == -(d1.mantissa as int) && sm2 == d2.mantissa as int || sm1
                        == d1.mantissa as int && sm2 == -(d2.mantissa as int),
                    d1.mantissa as int * pa != 0,
                    pa > 0,
                    pb > 0,
                    d1.mantissa >= 0,
                    d2.mantissa >= 0,
            ;
        }
        assert(d1.mantissa as int * pa == d2.mantissa as int * pb) by (nonlinear_arith)
            requires
                sm1 * pa == sm2 * pb,
                sm1 == d1.mantissa as int || sm1 == -(d1.mantissa as int),
                sm2 == d2.mantissa as int || sm2 == -(d2.mantissa as int),
                pa > 0,
                pb > 0,
                d1.mantissa >= 0,
                d2.mantissa >= 0,
        ;
    } else {
        assert(d1.mantissa as int * pa != d2.mantissa as int * pb || d1.mantissa as int * pa
            != 0 && d1.negative != d2.negative) by (nonlinear_arith)
            requires
                sm1 * pa != sm2 * pb,
                sm1 == if d1.negative {
                    -(d1.mantissa as int)
                } else {
                    d1.mantissa as int
                },
                sm2 == if d2.negative {
                    -(d2.mantissa as int)
                } else {
                    d2.mantissa as int
                },
                pa > 0,
                pb > 0,
                d1.mantissa >= 0,
                d2.mantissa >= 0,
        ;
    }
}

/// Aligning both addends to the wider scale turns `val18` of each into the
/// aligned signed mantissa times one shared power of ten.
proof fn lemma_add_aligned(d1: Decimal, d2: Decimal, smax: u32, f1: int, f2: int)
    requires
        dec_wf(d1),
        dec_wf(d2),
        smax == max_scale_of(d1, d2),
        f1 == pow(10, (smax - d1.scale) as nat),
        f2 == pow(10, (smax - d2.scale) as nat),
    ensures
        val18(d1) == (if d1.negative {
            -(d1.mantissa as int * f1)
        } else {
            d1.mantissa as int * f1
        }) * pow(10, (MAX_SCALE - smax) as nat),
        val18(d2) == (if d2.negative {
            -(d2.mantissa as int * f2)
        } else {
            d2.mantissa as int * f2
        }) * pow(10, (MAX_SCALE - smax) as nat),
{
    let q = pow(10, (MAX_SCALE - smax) as nat);
    vstd::arithmetic::power::lemma_pow_adds(10, (smax - d1.scale) as nat, (MAX_SCALE - smax) as nat);
    vstd::arithmetic::power::lemma_pow_adds(10, (smax - d2.scale) as nat, (MAX_SCALE - smax) as nat);
    assert((MAX_SCALE - d1.scale) as nat == (smax - d1.scale) as nat + (MAX_SCALE - smax) as nat);
    assert((MAX_SCALE - d2.scale) as nat == (smax - d2.scale) as nat + (MAX_SCALE - smax) as nat);
    assert(d1.mantissa as int * (f1 * q) == (d1.mantissa as int * f1) * q) by (nonlinear_arith);
    assert(d2.mantissa as int * (f2 * q) == (d2.mantissa as int * f2) * q) by (nonlinear_arith);
    assert(-(d1.mantissa as int) * (f1 * q) == -(d1.mantissa as int * f1) * q) by (nonlinear_arith);
    assert(-(d2.mantissa as int) * (f2 * q) == -(d2.mantissa as int * f2) * q) by (nonlinear_arith);
}

/// Scaling by one shared power of ten preserves the size comparison with
/// the mantissa bound.
proof fn lemma_scaled_bound(sum: int, smax: u32)
    requires
        smax <= MAX_SCALE,
        abs_of(sum) >= MANTISSA_LIMIT,
    ensures
        abs_of(sum * pow(10, (MAX_SCALE - smax) as nat)) >= MANTISSA_LIMIT * pow(
            10,
            (MAX_SCALE - smax) as nat,
        ),
{
    let q = pow(10, (MAX_SCALE - smax) as nat);
    vstd::arithmetic::power::lemma_pow_positive(10, (MAX_SCALE - smax) as nat);
    assert(abs_of(sum * q) >= MANTISSA_LIMIT * q) by (nonlinear_arith)
        requires
            q > 0,
            abs_of(sum) >= MANTISSA_LIMIT,
            abs_of(sum) == if sum < 0 {
                -sum
            } else {
                sum
            },
            abs_of(sum * q) == if sum * q < 0 {
                -(sum * q)
            } else {
                sum * q
            },
    ;
}

/// A decimal built from the signed aligned sum denotes that sum.
proof fn lemma_scaled_value(sum: int, d: Decimal)
    requires
        dec_wf(d),
        d.mantissa == abs_of(sum),
        d.negative == (sum < 0),
    ensures
        val18(d) == sum * pow(10, (MAX_SCALE - d.scale) as nat),
{
    let q = pow(10, (MAX_SCALE - d.scale) as nat);
    vstd::arithmetic::power::lemma_pow_positive(10, (MAX_SCALE - d.scale) as nat);
    if sum < 0 {
        assert(-(d.mantissa as int) * q == sum * q) by (nonlinear_arith)
            requires
                d.mantissa as int == -sum,
        ;
    }
}

/// A parsed decimal is well formed: its mantissa and scale respect the
/// library's bounds.
pub proof fn lemma_dec_parse_wf(s: Seq<char>)
    ensures
        dec_parse(s) matches Some(d) ==> dec_wf(d),
{
    if dec_parse(s) is Some {
        let body = if s.len() >= 1 && s[0] == '-' {
            s.drop_first()
        } else {
            s
        };
        match first_dot(body) {
            None => {
                lemma_digits_val_nonneg(body);
            },
            Some(dot) => {
                let ip = body.take(dot);
                let fp = body.skip(dot + 1);
                if all_digits(ip + fp) {
                    lemma_digits_val_nonneg(ip + fp);
                }
            },
        }
    }
}

/// Parsing reads back exactly what rendering wrote: for every well-formed
/// decimal, [`dec_parse`] of [`dec_render`] returns the value unchanged,
/// sign, mantissa and scale included.
pub proof fn lemma_dec_render_parse(d: Decimal)
    requires
        dec_wf(d),
    ensures
        dec_parse(dec_render(d)) == Some(d),
{
    let sign = if d.negative {
        seq!['-']
    } else {
        Seq::<char>::empty()
    };
    lemma_pow10_18();
    if d.scale == 0 {
        let body = dec_chars(d.mantissa as int);
        lemma_dec_chars_digits(d.mantissa as int);
        assert(dec_render(d) =~= sign + body);
        let s = dec_render(d);
        if d.negative {
            assert(s[0] == '-');
            assert(s.drop_first() =~= body);
        } else {
            assert(s =~= body);
            assert(is_digit(s[0]));
            assert(s[0] != '-');
        }
        assert forall|i: int| 0 <= i < body.len() implies #[trigger] body[i] != '.' by {
            assert(is_digit(body[i]));
        }
        lemma_first_dot_none(body);
    } else {
        let p = pow(10, d.scale as nat);
        vstd::arithmetic::power::lemma_pow_positive(10, d.scale as nat);
        let m = d.mantissa as int;
        vstd::arithmetic::div_mod::lemma_fundamental_div_mod(m, p);
        vstd::arithmetic::div_mod::lemma_mod_bound(m, p);
        vstd::arithmetic::div_mod::lemma_div_pos_is_pos(m, p);
        let ip = dec_chars(m / p);
        let fd = dec_chars(m % p);
        lemma_dec_chars_digits(m / p);
        lemma_dec_chars_digits(m % p);
        lemma_dec_chars_len(m % p, d.scale as nat);
        let z = zeros(d.scale - fd.len());
        lemma_zeros_digits(d.scale - fd.len());
        let s = dec_render(d);
        assert(s =~= sign + ip + seq!['.'] + z + fd);
        let u = if d.negative {
            s.drop_first()
        } else {
            s
        };
        assert(u =~= ip + seq!['.'] + z + fd);
        if d.negative {
            assert(s[0] == '-');
        } else {
            assert(is_digit(s[0]));
            assert(s[0] != '-');
        }
        // The first point stands right after the integer digits.
        assert(u[ip.len() as int] == '.');
        assert forall|i: int| 0 <= i < ip.len() implies #[trigger] u[i] != '.' by {
            assert(u[i] == ip[i]);
            assert(is_digit(ip[i]));
        }
        lemma_first_dot_at(u, ip.len() as int);
        let ipp = u.take(ip.len() as int);
        let fpp = u.skip(ip.len() as int + 1);
        assert(ipp =~= ip);
        assert(fpp =~= z + fd);
        assert(fpp.len() == d.scale);
        assert forall|i: int| 0 <= i < fpp.len() implies is_digit(#[trigger] fpp[i]) by {
            if i < z.len() {
                assert(fpp[i] == z[i]);
            } else {
                assert(fpp[i] == fd[i - z.len()]);
            }
        }
        lemma_digits_val_append(z, fd);
        lemma_digits_val_append(ip, z + fd);
        assert(digits_val(z + fd) == digits_val(z) * pow(10, fd.len()) + digits_val(fd));
        vstd::arithmetic::power::lemma_pow_positive(10, fd.len());
        assert(digits_val(z) * pow(10, fd.len()) == 0) by (nonlinear_arith)
            requires
                digits_val(z) == 0,
        ;
        assert((z + fd).len() == d.scale);
        assert(digits_val(ip + (z + fd)) == digits_val(ip) * pow(10, d.scale as nat) + digits_val(
            z + fd,
        ));
        assert(digits_val(ip + (z + fd)) == (m / p) * p + m % p);
        assert(ipp + fpp =~= ip + (z + fd));
        assert(digits_val(ipp + fpp) == m);
    }
}

} // verus!
