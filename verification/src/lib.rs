//! Client library for the GDAX exchange REST API.
//!
//! The library is split the same way the API is: market-data endpoints that
//! need no authentication (`public`) and account/order endpoints that must be
//! signed (`private`). Everything that can be computed locally — canonical
//! request signing, order encoding, query-string assembly, and decoding of the
//! exchange's loosely-typed JSON responses into a strict model — is verified;
//! the HTTP transport and the cryptographic primitives are called through
//! narrow trusted wrappers.

use vstd::prelude::*;

pub mod clock;
pub mod decimal;
pub mod decode;
pub mod ids;
pub mod json;
pub mod private;
pub mod public;
pub mod sign;
mod text;

pub use private::Client as PrivateClient;
pub use private::NewOrder;
pub use private::SizeOrFunds;
pub use private::SizeOrFunds::Funds;
pub use private::SizeOrFunds::Size;
pub use public::Client as PublicClient;

verus! {

/// The error body the exchange sends with a non-2xx status: `{"message": ...}`.
#[derive(Debug)]
pub struct ApiError {
    pub message: String,
}

/// Everything a request can fail with.
///
/// `Api`: the exchange rejected the request and said why (non-2xx status with
/// a message body). `Http`: the transport failed; the payload is the
/// transport's own description. `InvalidSecretKey`: the configured secret is
/// not valid base64, found when a signature is first computed. `Json`: a
/// response body did not match the expected schema.
#[derive(Debug)]
pub enum Error {
    Api(ApiError),
    Http(String),
    InvalidSecretKey,
    Json(String),
}

/// Which side of the book an order is on.
#[derive(Clone, Copy, Debug, PartialEq, Eq, Structural)]
pub enum Side {
    Buy,
    Sell,
}

/// The wire spelling of a side: fixed lowercase on encode.
pub open spec fn side_wire_chars(side: Side) -> Seq<char> {
    match side {
        Side::Buy => "buy"@,
        Side::Sell => "sell"@,
    }
}

/// How a side string decodes: case-insensitively, to the side whose
/// lowercase form it matches, and to nothing else.
pub open spec fn side_of_chars(s: Seq<char>) -> Option<Side> {
    if crate::text::ascii_lower(s) == "buy"@ {
        Some(Side::Buy)
    } else if crate::text::ascii_lower(s) == "sell"@ {
        Some(Side::Sell)
    } else {
        None
    }
}

impl Side {
    /// The exact string sent to the exchange for this side.
    pub fn wire_str(&self) -> (r: &'static str)
        ensures
            r@ == side_wire_chars(*self),
            r@ == crate::text::ascii_lower(r@),
    {
        proof {
            reveal_strlit("buy");
            reveal_strlit("sell");
            crate::text::lemma_ascii_lower_fixed("buy"@);
            crate::text::lemma_ascii_lower_fixed("sell"@);
        }
        match self {
            Side::Buy => "buy",
            Side::Sell => "sell",
        }
    }

    /// The human-readable name of the side, capitalized for display.
    pub fn display_str(&self) -> (r: &'static str)
        ensures
            (*self is Buy ==> r@ == "Buy"@) && (*self is Sell ==> r@ == "Sell"@),
    {
        match self {
            Side::Buy => "Buy",
            Side::Sell => "Sell",
        }
    }

    /// Decode a side string as the exchange spells it, in any letter case.
    pub fn parse(s: &str) -> (r: Option<Side>)
        ensures
            r == side_of_chars(s@),
    {
        proof {
            reveal_strlit("buy");
            reveal_strlit("sell");
            crate::text::lemma_ascii_lower_fixed("buy"@);
            crate::text::lemma_ascii_lower_fixed("sell"@);
        }
        if crate::text::eq_ignore_ascii_case(s, "buy") {
            Some(Side::Buy)
        } else if crate::text::eq_ignore_ascii_case(s, "sell") {
            Some(Side::Sell)
        } else {
            None
        }
    }
}

/// Decoding a side is insensitive to ASCII letter case: a string and its
/// lowercase form decode to the same value.
pub proof fn lemma_side_case_insensitive(s: Seq<char>)
    ensures
        side_of_chars(s) == side_of_chars(crate::text::ascii_lower(s)),
{
    crate::text::lemma_ascii_lower_idempotent(s);
}

/// Encoding a side and decoding the result gives the side back.
pub proof fn lemma_side_round_trip(side: Side)
    ensures
        side_of_chars(side_wire_chars(side)) == Some(side),
{
    reveal_strlit("buy");
    reveal_strlit("sell");
    crate::text::lemma_ascii_lower_fixed("buy"@);
    crate::text::lemma_ascii_lower_fixed("sell"@);
    assert("buy"@ != "sell"@);
}

} // verus!
