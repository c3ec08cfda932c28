//! Small string helpers the rest of the library builds on: ASCII case
//! folding, decimal rendering of integers, and appending to a `String`.

use vstd::prelude::*;

verus! {

/// Is `c` an ASCII capital letter?
pub open spec fn is_ascii_upper_char(c: char) -> bool {
    'A' <= c && c <= 'Z'
}

/// Is `c` an ASCII small letter?
pub open spec fn is_ascii_lower_char(c: char) -> bool {
    'a' <= c && c <= 'z'
}

/// `c` folded to ASCII lowercase; anything but a capital letter is unchanged.
pub open spec fn lower_char(c: char) -> char {
    if is_ascii_upper_char(c) {
        ((c as u32) + 32) as char
    } else {
        c
    }
}

/// `c` folded to ASCII uppercase; anything but a small letter is unchanged.
pub open spec fn upper_char(c: char) -> char {
    if is_ascii_lower_char(c) {
        ((c as u32) - 32) as char
    } else {
        c
    }
}

/// `s` with every ASCII capital letter folded to lowercase.
pub open spec fn ascii_lower(s: Seq<char>) -> Seq<char> {
    Seq::new(s.len(), |i: int| lower_char(s[i]))
}

/// `s` with every ASCII small letter folded to uppercase.
pub open spec fn ascii_upper(s: Seq<char>) -> Seq<char> {
    Seq::new(s.len(), |i: int| upper_char(s[i]))
}

/// Folding to lowercase twice is the same as folding once.
pub proof fn lemma_ascii_lower_idempotent(s: Seq<char>)
    ensures
        ascii_lower(ascii_lower(s)) == ascii_lower(s),
{
    assert forall|i: int| 0 <= i < s.len() implies lower_char(lower_char(s[i])) == lower_char(
        s[i],
    ) by {
        let c = s[i];
        if is_ascii_upper_char(c) {
            assert(((c as u32) + 32) as char as u32 == (c as u32) + 32);
        }
    }
    assert(ascii_lower(ascii_lower(s)) =~= ascii_lower(s));
}

/// A string without capital letters is already its own lowercase form.
pub proof fn lemma_ascii_lower_fixed(s: Seq<char>)
    requires
        forall|i: int| 0 <= i < s.len() ==> !is_ascii_upper_char(#[trigger] s[i]),
    ensures
        ascii_lower(s) == s,
{
    assert(ascii_lower(s) =~= s);
}

/// Relies on `char::to_ascii_lowercase`: maps `'A'..='Z'` to `'a'..='z'` and
/// leaves every other character unchanged.
#[verifier::external_body]
fn to_lower_char(c: char) -> (r: char)
    ensures
        r == lower_char(c),
{
    c.to_ascii_lowercase()
}

/// Relies on `char::to_ascii_uppercase`: maps `'a'..='z'` to `'A'..='Z'` and
/// leaves every other character unchanged.
#[verifier::external_body]
fn to_upper_char(c: char) -> (r: char)
    ensures
        r == upper_char(c),
{
    c.to_ascii_uppercase()
}

/// Relies on `String::push`: appends one character at the end.
#[verifier::external_body]
pub(crate) fn push_char(s: &mut String, c: char)
    ensures
        final (s)@ == old(s)@.push(c),
{
    s.push(c);
}

/// Do `a` and `b` agree up to ASCII letter case?
pub fn eq_ignore_ascii_case(a: &str, b: &str) -> (r: bool)
    ensures
        r == (ascii_lower(a@) == ascii_lower(b@)),
{
    let a_len = a.unicode_len();
    let b_len = b.unicode_len();
    if a_len != b_len {
        proof {
            assert(ascii_lower(a@).len() != ascii_lower(b@).len());
        }
        return false;
    }
    for i in 0..a_len
        invariant
            a_len == a@.len(),
            b_len == b@.len(),
            a_len == b_len,
            forall|j: int| 0 <= j < i ==> lower_char(a@[j]) == lower_char(b@[j]),
    {
        let ca = a.get_char(i);
        let cb = b.get_char(i);
        if to_lower_char(ca) != to_lower_char(cb) {
            proof {
                assert(ascii_lower(a@)[i as int] != ascii_lower(b@)[i as int]);
            }
            return false;
        }
    }
    proof {
        assert(ascii_lower(a@) =~= ascii_lower(b@));
    }
    true
}

/// `s` folded to ASCII uppercase.
pub fn ascii_uppercase(s: &str) -> (r: String)
    ensures
        r@ == ascii_upper(s@),
{
    let len = s.unicode_len();
    let mut out = String::new();
    for i in 0..len
        invariant
            len == s@.len(),
            out@ =~= ascii_upper(s@).subrange(0, i as int),
    {
        let c = s.get_char(i);
        push_char(&mut out, to_upper_char(c));
        proof {
            assert(out@ =~= ascii_upper(s@).subrange(0, i + 1));
        }
    }
    proof {
        assert(out@ =~= ascii_upper(s@));
    }
    out
}

/// The decimal digit `d` as a character, for `0 <= d < 10`.
pub open spec fn digit_char(d: int) -> char {
    if d == 0 {
        '0'
    } else if d == 1 {
        '1'
    } else if d == 2 {
        '2'
    } else if d == 3 {
        '3'
    } else if d == 4 {
        '4'
    } else if d == 5 {
        '5'
    } else if d == 6 {
        '6'
    } else if d == 7 {
        '7'
    } else if d == 8 {
        '8'
    } else {
        '9'
    }
}

/// The decimal spelling of `n >= 0`, without a sign and without leading
/// zeros (a single `'0'` for zero).
pub open spec fn dec_chars(n: int) -> Seq<char>
    decreases n,
{
    if n < 10 {
        seq![digit_char(n)]
    } else {
        dec_chars(n / 10).push(digit_char(n % 10))
    }
}

/// The decimal spelling of `n`, with a leading `'-'` when `n` is negative.
pub open spec fn dec_chars_signed(n: int) -> Seq<char> {
    if n < 0 {
        seq!['-'] + dec_chars(-n)
    } else {
        dec_chars(n)
    }
}

fn digit_str(d: u64) -> (r: &'static str)
    requires
        d < 10,
    ensures
        r@ == seq![digit_char(d as int)],
{
    proof {
        reveal_strlit("0");
        reveal_strlit("1");
        reveal_strlit("2");
        reveal_strlit("3");
        reveal_strlit("4");
        reveal_strlit("5");
        reveal_strlit("6");
        reveal_strlit("7");
        reveal_strlit("8");
        reveal_strlit("9");
    }
    let r = match d {
        0 => "0",
        1 => "1",
        2 => "2",
        3 => "3",
        4 => "4",
        5 => "5",
        6 => "6",
        7 => "7",
        8 => "8",
        _ => "9",
    };
    proof {
        assert(r@ =~= seq![digit_char(d as int)]);
    }
    r
}

/// Render `n` in decimal.
pub fn u64_to_string(n: u64) -> (r: String)
    ensures
        r@ == dec_chars(n as int),
    decreases n,
{
    if n < 10 {
        digit_str(n).to_owned()
    } else {
        let mut s = u64_to_string(n / 10);
        s.append(digit_str(n % 10));
        proof {
            assert(s@ =~= dec_chars(n as int));
        }
        s
    }
}

/// Render `n` in decimal, with a `'-'` sign when it is negative.
pub fn i64_to_string(n: i64) -> (r: String)
    ensures
        r@ == dec_chars_signed(n as int),
{
    if n >= 0 {
        u64_to_string(n as u64)
    } else {
        let magnitude: i128 = -(n as i128);
        let mut s = String::from_str("-");
        let digits = u64_to_string(magnitude as u64);
        s.append(digits.as_str());
        proof {
            reveal_strlit("-");
            assert(s@ =~= dec_chars_signed(n as int));
        }
        s
    }
}

} // verus!

