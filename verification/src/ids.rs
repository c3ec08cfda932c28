//! Identifiers.
//!
//! The exchange names accounts, orders, trades and transfers with UUIDs in
//! their canonical text form: thirty-two hexadecimal digits in five groups
//! separated by hyphens. The library validates that shape and carries the
//! identifier as text; it never needs the 128-bit value itself.

use vstd::prelude::*;

verus! {

/// Is `c` a hexadecimal digit, either case?
pub open spec fn is_hex_char(c: char) -> bool {
    ('0' <= c && c <= '9') || ('a' <= c && c <= 'f') || ('A' <= c && c <= 'F')
}

/// The canonical UUID shape: `xxxxxxxx-xxxx-xxxx-xxxx-xxxxxxxxxxxx`, each
/// `x` a hexadecimal digit.
pub open spec fn uuid_text_wf(s: Seq<char>) -> bool {
    &&& s.len() == 36
    &&& forall|i: int|
        0 <= i < 36 ==> if i == 8 || i == 13 || i == 18 || i == 23 {
            #[trigger] s[i] == '-'
        } else {
            is_hex_char(s[i])
        }
}

/// A server-assigned identifier, kept in its canonical text form.
#[derive(Clone, Debug)]
pub struct Uuid {
    text: String,
}

/// An order's identifier.
pub type OrderId = Uuid;

impl View for Uuid {
    type V = Seq<char>;

    closed spec fn view(&self) -> Seq<char> {
        self.text@
    }
}

impl Uuid {
    /// Accept exactly the canonical UUID text shape.
    pub fn parse(s: &str) -> (r: Option<Uuid>)
        ensures
            r is Some <==> uuid_text_wf(s@),
            r matches Some(u) ==> u@ == s@,
    {
        let len = s.unicode_len();
        if len != 36 {
            return None;
        }
        for i in 0..36usize
            invariant
                s@.len() == 36,
                forall|j: int|
                    0 <= j < i ==> if j == 8 || j == 13 || j == 18 || j == 23 {
                        #[trigger] s@[j] == '-'
                    } else {
                        is_hex_char(s@[j])
                    },
        {
            let c = s.get_char(i);
            let v = c as u32;
            if i == 8 || i == 13 || i == 18 || i == 23 {
                if c != '-' {
                    return None;
                }
            } else {
                let hex = (48 <= v && v <= 57) || (97 <= v && v <= 102) || (65 <= v && v <= 70);
                proof {
                    assert(hex == is_hex_char(c));
                }
                if !hex {
                    return None;
                }
            }
        }
        Some(Uuid { text: s.to_owned() })
    }

    /// The identifier's text.
    pub fn as_str(&self) -> (r: &str)
        ensures
            r@ == self@,
    {
        self.text.as_str()
    }
}

} // verus!
