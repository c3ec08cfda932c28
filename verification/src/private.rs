//! The authenticated surface: accounts, ledgers, holds and orders.
//!
//! Every method builds a request that already carries its signature
//! headers, computed over the exact path and body that will be sent; a
//! matching function decodes each response into the typed model. The
//! facade also holds a public client, so one value serves both surfaces.

use vstd::prelude::*;

use crate::clock::Timestamp;
use crate::decimal::{dec_render, dec_wf, Decimal};
use crate::decode::{
    bool_field, dec_field, field_missing, get_bool, get_dec, get_opt_str, get_opt_time,
    get_opt_u64, get_opt_uuid, get_side, get_str, get_time, get_u64, get_uuid, opt_str_field,
    opt_time_field, opt_u64_field, opt_uuid_field, side_field, str_field, time_field, u64_field,
    uuid_field,
};
use crate::ids::{OrderId, Uuid};
use crate::json::{elements_view, field_of, json_escaped, json_view, Json, JsonVal};
use crate::text::ascii_lower;
use crate::{side_wire_chars, Error, Side};

verus! {

/// What moved in a ledger entry.
#[derive(Clone, Copy, Debug, PartialEq, Eq, Structural)]
pub enum EntryType {
    Fee,
    Match,
    Transfer,
}

/// How an entry-type string decodes: case-insensitively, to the type whose
/// lowercase form it matches.
pub open spec fn entry_type_of_chars(s: Seq<char>) -> Option<EntryType> {
    if ascii_lower(s) == "fee"@ {
        Some(EntryType::Fee)
    } else if ascii_lower(s) == "match"@ {
        Some(EntryType::Match)
    } else if ascii_lower(s) == "transfer"@ {
        Some(EntryType::Transfer)
    } else {
        None
    }
}

impl EntryType {
    /// Decode an entry-type string, in any letter case.
    pub fn parse(s: &str) -> (r: Option<EntryType>)
        ensures
            r == entry_type_of_chars(s@),
    {
        proof {
            reveal_strlit("fee");
            reveal_strlit("match");
            reveal_strlit("transfer");
            crate::text::lemma_ascii_lower_fixed("fee"@);
            crate::text::lemma_ascii_lower_fixed("match"@);
            crate::text::lemma_ascii_lower_fixed("transfer"@);
        }
        if crate::text::eq_ignore_ascii_case(s, "fee") {
            Some(EntryType::Fee)
        } else if crate::text::eq_ignore_ascii_case(s, "match") {
            Some(EntryType::Match)
        } else if crate::text::eq_ignore_ascii_case(s, "transfer") {
            Some(EntryType::Transfer)
        } else {
            None
        }
    }
}

/// Why funds are on hold.
#[derive(Clone, Copy, Debug, PartialEq, Eq, Structural)]
pub enum HoldType {
    Order,
    Transfer,
}

/// How a hold-type string decodes: case-insensitively, to the type whose
/// lowercase form it matches.
pub open spec fn hold_type_of_chars(s: Seq<char>) -> Option<HoldType> {
    if ascii_lower(s) == "order"@ {
        Some(HoldType::Order)
    } else if ascii_lower(s) == "transfer"@ {
        Some(HoldType::Transfer)
    } else {
        None
    }
}

impl HoldType {
    /// Decode a hold-type string, in any letter case.
    pub fn parse(s: &str) -> (r: Option<HoldType>)
        ensures
            r == hold_type_of_chars(s@),
    {
        proof {
            reveal_strlit("order");
            reveal_strlit("transfer");
            crate::text::lemma_ascii_lower_fixed("order"@);
            crate::text::lemma_ascii_lower_fixed("transfer"@);
        }
        if crate::text::eq_ignore_ascii_case(s, "order") {
            Some(HoldType::Order)
        } else if crate::text::eq_ignore_ascii_case(s, "transfer") {
            Some(HoldType::Transfer)
        } else {
            None
        }
    }
}

/// One account and its balances.
#[derive(Clone, Debug)]
pub struct Account {
    pub id: Uuid,
    pub balance: Decimal,
    pub hold: Decimal,
    pub available: Decimal,
    pub currency: String,
}

/// A ledger of entries.
pub type Ledger = Vec<LedgerEntry>;

/// One ledger entry. The populated fields of `details` depend on the
/// entry type.
#[derive(Clone, Debug)]
pub struct LedgerEntry {
    pub id: u64,
    pub created_at: Timestamp,
    pub amount: Decimal,
    pub balance: Decimal,
    pub entry_type: EntryType,
    pub details: Option<EntryDetails>,
}

/// The structured detail of a ledger entry; each field appears only for
/// the entry types that carry it.
#[derive(Clone, Debug)]
pub struct EntryDetails {
    pub order_id: Option<Uuid>,
    pub trade_id: Option<u64>,
    pub product_id: Option<String>,
    pub transfer_id: Option<Uuid>,
    pub transfer_type: Option<String>,
}

/// Funds held against open orders or transfers. The schema has drifted
/// across exchange versions, so the account reference and update time are
/// optional.
#[derive(Clone, Debug)]
pub struct Hold {
    pub id: Uuid,
    pub account_id: Option<Uuid>,
    pub created_at: Timestamp,
    pub updated_at: Option<Timestamp>,
    pub amount: Decimal,
    pub hold_type: HoldType,
    pub ref_id: Uuid,
}

/// The entry-type field, decoded case-insensitively.
pub open spec fn entry_type_field(t: JsonVal, key: Seq<char>) -> Option<EntryType> {
    match str_field(t, key) {
        Some(s) => entry_type_of_chars(s),
        None => None,
    }
}

/// The hold-type field, decoded case-insensitively.
pub open spec fn hold_type_field(t: JsonVal, key: Seq<char>) -> Option<HoldType> {
    match str_field(t, key) {
        Some(s) => hold_type_of_chars(s),
        None => None,
    }
}

/// Which trees decode as an [`Account`].
pub open spec fn account_ok(t: JsonVal) -> bool {
    &&& uuid_field(t, "id"@) is Some
    &&& dec_field(t, "balance"@) is Some
    &&& dec_field(t, "hold"@) is Some
    &&& dec_field(t, "available"@) is Some
    &&& str_field(t, "currency"@) is Some
}

/// What a decoded [`Account`] holds, field by field.
pub open spec fn account_matches(t: JsonVal, a: Account) -> bool {
    &&& uuid_field(t, "id"@) == Some(a.id@)
    &&& dec_field(t, "balance"@) == Some(a.balance)
    &&& dec_field(t, "hold"@) == Some(a.hold)
    &&& dec_field(t, "available"@) == Some(a.available)
    &&& str_field(t, "currency"@) == Some(a.currency@)
}

/// Decode one account object.
pub fn decode_account(j: &Json) -> (r: Result<Account, Error>)
    ensures
        match r {
            Ok(a) => account_ok(json_view(*j)) && account_matches(json_view(*j), a),
            Err(e) => !account_ok(json_view(*j)) && e is Json,
        },
{
    let id = match get_uuid(j, "id") {
        Ok(v) => v,
        Err(e) => {
            return Err(e);
        },
    };
    let balance = match get_dec(j, "balance") {
        Ok(v) => v,
        Err(e) => {
            return Err(e);
        },
    };
    let hold = match get_dec(j, "hold") {
        Ok(v) => v,
        Err(e) => {
            return Err(e);
        },
    };
    let available = match get_dec(j, "available") {
        Ok(v) => v,
        Err(e) => {
            return Err(e);
        },
    };
    let currency = match get_str(j, "currency") {
        Ok(v) => v,
        Err(e) => {
            return Err(e);
        },
    };
    Ok(Account { id, balance, hold, available, currency })
}

/// Which trees decode as [`EntryDetails`]: every known field is optional,
/// but a present field must have its shape.
pub open spec fn entry_details_ok(t: JsonVal) -> bool {
    &&& opt_uuid_field(t, "order_id"@) is Some
    &&& opt_u64_field(t, "trade_id"@) is Some
    &&& opt_str_field(t, "product_id"@) is Some
    &&& opt_uuid_field(t, "transfer_id"@) is Some
    &&& opt_str_field(t, "transfer_type"@) is Some
}

/// What decoded [`EntryDetails`] hold.
pub open spec fn entry_details_matches(t: JsonVal, d: EntryDetails) -> bool {
    &&& opt_uuid_field(t, "order_id"@) == Some(
        match d.order_id {
            Some(u) => Some(u@),
            None => None,
        },
    )
    &&& opt_u64_field(t, "trade_id"@) == Some(d.trade_id)
    &&& opt_str_field(t, "product_id"@) == Some(
        match d.product_id {
            Some(s) => Some(s@),
            None => None,
        },
    )
    &&& opt_uuid_field(t, "transfer_id"@) == Some(
        match d.transfer_id {
            Some(u) => Some(u@),
            None => None,
        },
    )
    &&& opt_str_field(t, "transfer_type"@) == Some(
        match d.transfer_type {
            Some(s) => Some(s@),
            None => None,
        },
    )
}

/// Decode the detail object of a ledger entry.
pub fn decode_entry_details(j: &Json) -> (r: Result<EntryDetails, Error>)
    ensures
        match r {
            Ok(d) => entry_details_ok(json_view(*j)) && entry_details_matches(json_view(*j), d),
            Err(e) => !entry_details_ok(json_view(*j)) && e is Json,
        },
{
    let order_id = match get_opt_uuid(j, "order_id") {
        Ok(v) => v,
        Err(e) => {
            return Err(e);
        },
    };
    let trade_id = match get_opt_u64(j, "trade_id") {
        Ok(v) => v,
        Err(e) => {
            return Err(e);
        },
    };
    let product_id = match get_opt_str(j, "product_id") {
        Ok(v) => v,
        Err(e) => {
            return Err(e);
        },
    };
    let transfer_id = match get_opt_uuid(j, "transfer_id") {
        Ok(v) => v,
        Err(e) => {
            return Err(e);
        },
    };
    let transfer_type = match get_opt_str(j, "transfer_type") {
        Ok(v) => v,
        Err(e) => {
            return Err(e);
        },
    };
    Ok(EntryDetails { order_id, trade_id, product_id, transfer_id, transfer_type })
}

/// Which trees decode as a [`LedgerEntry`].
pub open spec fn ledger_entry_ok(t: JsonVal) -> bool {
    &&& u64_field(t, "id"@) is Some
    &&& time_field(t, "created_at"@) is Some
    &&& dec_field(t, "amount"@) is Some
    &&& dec_field(t, "balance"@) is Some
    &&& entry_type_field(t, "type"@) is Some
    &&& (field_missing(t, "details"@) || (field_of(t, "details"@) matches Some(d)
        && entry_details_ok(d)))
}

/// What a decoded [`LedgerEntry`] holds.
pub open spec fn ledger_entry_matches(t: JsonVal, v: LedgerEntry) -> bool {
    &&& u64_field(t, "id"@) == Some(v.id)
    &&& time_field(t, "created_at"@) == Some((v.created_at.secs, v.created_at.nanos))
    &&& dec_field(t, "amount"@) == Some(v.amount)
    &&& dec_field(t, "balance"@) == Some(v.balance)
    &&& entry_type_field(t, "type"@) == Some(v.entry_type)
    &&& if field_missing(t, "details"@) {
        v.details is None
    } else {
        v.details matches Some(d) && entry_details_matches(field_of(t, "details"@)->Some_0, d)
    }
}

/// Decode one ledger entry.
pub fn decode_ledger_entry(j: &Json) -> (r: Result<LedgerEntry, Error>)
    ensures
        match r {
            Ok(v) => ledger_entry_ok(json_view(*j)) && ledger_entry_matches(json_view(*j), v),
            Err(e) => !ledger_entry_ok(json_view(*j)) && e is Json,
        },
{
    let id = match get_u64(j, "id") {
        Ok(v) => v,
        Err(e) => {
            return Err(e);
        },
    };
    let created_at = match get_time(j, "created_at") {
        Ok(v) => v,
        Err(e) => {
            return Err(e);
        },
    };
    let amount = match get_dec(j, "amount") {
        Ok(v) => v,
        Err(e) => {
            return Err(e);
        },
    };
    let balance = match get_dec(j, "balance") {
        Ok(v) => v,
        Err(e) => {
            return Err(e);
        },
    };
    let entry_type = match get_str(j, "type") {
        Ok(s) => match EntryType::parse(s.as_str()) {
            Some(v) => v,
            None => {
                return Err(crate::decode::decode_error());
            },
        },
        Err(e) => {
            return Err(e);
        },
    };
    let details = if crate::decode::is_missing(j, "details") {
        None
    } else {
        match j.get("details") {
            Some(d) => match decode_entry_details(d) {
                Ok(v) => Some(v),
                Err(e) => {
                    return Err(e);
                },
            },
            None => {
                return Err(crate::decode::decode_error());
            },
        }
    };
    Ok(LedgerEntry { id, created_at, amount, balance, entry_type, details })
}

/// Which trees decode as a [`Hold`].
pub open spec fn hold_ok(t: JsonVal) -> bool {
    &&& uuid_field(t, "id"@) is Some
    &&& opt_uuid_field(t, "account_id"@) is Some
    &&& time_field(t, "created_at"@) is Some
    &&& opt_time_field(t, "updated_at"@) is Some
    &&& dec_field(t, "amount"@) is Some
    &&& hold_type_field(t, "type"@) is Some
    &&& uuid_field(t, "ref"@) is Some
}

/// What a decoded [`Hold`] holds.
pub open spec fn hold_matches(t: JsonVal, v: Hold) -> bool {
    &&& uuid_field(t, "id"@) == Some(v.id@)
    &&& opt_uuid_field(t, "account_id"@) == Some(
        match v.account_id {
            Some(u) => Some(u@),
            None => None,
        },
    )
    &&& time_field(t, "created_at"@) == Some((v.created_at.secs, v.created_at.nanos))
    &&& opt_time_field(t, "updated_at"@) == Some(
        match v.updated_at {
            Some(u) => Some((u.secs, u.nanos)),
            None => None,
        },
    )
    &&& dec_field(t, "amount"@) == Some(v.amount)
    &&& hold_type_field(t, "type"@) == Some(v.hold_type)
    &&& uuid_field(t, "ref"@) == Some(v.ref_id@)
}

/// Decode one hold.
pub fn decode_hold(j: &Json) -> (r: Result<Hold, Error>)
    ensures
        match r {
            Ok(v) => hold_ok(json_view(*j)) && hold_matches(json_view(*j), v),
            Err(e) => !hold_ok(json_view(*j)) && e is Json,
        },
{
    let id = match get_uuid(j, "id") {
        Ok(v) => v,
        Err(e) => {
            return Err(e);
        },
    };
    let account_id = match get_opt_uuid(j, "account_id") {
        Ok(v) => v,
        Err(e) => {
            return Err(e);
        },
    };
    let created_at = match get_time(j, "created_at") {
        Ok(v) => v,
        Err(e) => {
            return Err(e);
        },
    };
    let updated_at = match get_opt_time(j, "updated_at") {
        Ok(v) => v,
        Err(e) => {
            return Err(e);
        },
    };
    let amount = match get_dec(j, "amount") {
        Ok(v) => v,
        Err(e) => {
            return Err(e);
        },
    };
    let hold_type = match get_str(j, "type") {
        Ok(s) => match HoldType::parse(s.as_str()) {
            Some(v) => v,
            None => {
                return Err(crate::decode::decode_error());
            },
        },
        Err(e) => {
            return Err(e);
        },
    };
    let ref_id = match get_uuid(j, "ref") {
        Ok(v) => v,
        Err(e) => {
            return Err(e);
        },
    };
    Ok(Hold { id, account_id, created_at, updated_at, amount, hold_type, ref_id })
}

/// A quantity given either as base-asset size or as quote-asset funds:
/// exactly one, never both.
#[derive(Clone, Copy, Debug, PartialEq, Eq, Structural)]
pub enum SizeOrFunds {
    Size(Decimal),
    Funds(Decimal),
}

/// An order to place: limit, market or stop, each with its own required
/// fields. Inconsistent combinations cannot be built at all.
#[derive(Clone, Debug)]
pub enum NewOrder {
    Limit { side: Side, product_id: String, price: Decimal, size: Decimal },
    Market { side: Side, product_id: String, size_or_funds: SizeOrFunds },
    Stop { side: Side, product_id: String, price: Decimal, size_or_funds: SizeOrFunds },
}

/// Are the decimals of the quantity well formed?
pub open spec fn size_or_funds_wf(sf: SizeOrFunds) -> bool {
    match sf {
        SizeOrFunds::Size(d) => dec_wf(d),
        SizeOrFunds::Funds(d) => dec_wf(d),
    }
}

/// Are all decimals of the order well formed?
pub open spec fn order_wf(o: NewOrder) -> bool {
    match o {
        NewOrder::Limit { price, size, .. } => dec_wf(price) && dec_wf(size),
        NewOrder::Market { size_or_funds, .. } => size_or_funds_wf(size_or_funds),
        NewOrder::Stop { price, size_or_funds, .. } => dec_wf(price) && size_or_funds_wf(
            size_or_funds,
        ),
    }
}

/// The one body fragment a quantity contributes: a `size` field or a
/// `funds` field, never both.
pub open spec fn encode_size_or_funds(sf: SizeOrFunds) -> Seq<char> {
    match sf {
        SizeOrFunds::Size(d) => "\"size\":"@ + dec_render(d),
        SizeOrFunds::Funds(d) => "\"funds\":"@ + dec_render(d),
    }
}

/// The exact JSON body an order encodes to: a `type` discriminator, the
/// side in lowercase, the escaped product id, and the variant's own
/// fields, five closed shapes in all.
pub open spec fn encode_order(o: NewOrder) -> Seq<char> {
    match o {
        NewOrder::Limit { side, product_id, price, size } => "{\"type\":\"limit\",\"side\":\""@
            + side_wire_chars(side) + "\",\"product_id\":\""@ + json_escaped(product_id@)
            + "\",\"price\":"@ + dec_render(price) + ",\"size\":"@ + dec_render(size) + "}"@,
        NewOrder::Market { side, product_id, size_or_funds } => "{\"type\":\"market\",\"side\":\""@
            + side_wire_chars(side) + "\",\"product_id\":\""@ + json_escaped(product_id@)
            + "\","@ + encode_size_or_funds(size_or_funds) + "}"@,
        NewOrder::Stop { side, product_id, price, size_or_funds } => "{\"type\":\"stop\",\"side\":\""@
            + side_wire_chars(side) + "\",\"product_id\":\""@ + json_escaped(product_id@)
            + "\",\"price\":"@ + dec_render(price) + ","@ + encode_size_or_funds(size_or_funds)
            + "}"@,
    }
}

impl NewOrder {
    /// A limit order: price and size are both required.
    pub fn limit(side: Side, product_id: &str, size: Decimal, price: Decimal) -> (r: NewOrder)
        requires
            dec_wf(size),
            dec_wf(price),
        ensures
            r == (NewOrder::Limit { side, product_id: product_id_of(r), price, size }),
            product_id_of(r)@ == product_id@,
            order_wf(r),
    {
        NewOrder::Limit { side, product_id: product_id.to_owned(), price, size }
    }

    /// A market order: a size or a funds amount, and no price.
    pub fn market(side: Side, product_id: &str, size_or_funds: SizeOrFunds) -> (r: NewOrder)
        requires
            size_or_funds_wf(size_or_funds),
        ensures
            r == (NewOrder::Market { side, product_id: product_id_of(r), size_or_funds }),
            product_id_of(r)@ == product_id@,
            order_wf(r),
    {
        NewOrder::Market { side, product_id: product_id.to_owned(), size_or_funds }
    }

    /// A stop order: a trigger price and a size or funds amount.
    pub fn stop(side: Side, product_id: &str, size_or_funds: SizeOrFunds, price: Decimal) -> (r:
        NewOrder)
        requires
            size_or_funds_wf(size_or_funds),
            dec_wf(price),
        ensures
            r == (NewOrder::Stop { side, product_id: product_id_of(r), price, size_or_funds }),
            product_id_of(r)@ == product_id@,
            order_wf(r),
    {
        NewOrder::Stop { side, product_id: product_id.to_owned(), price, size_or_funds }
    }

    /// Encode the order to the exact JSON body the exchange expects.
    pub fn encode(&self) -> (r: String)
        requires
            order_wf(*self),
        ensures
            r@ == encode_order(*self),
    {
        match self {
            NewOrder::Limit { side, product_id, price, size } => {
                let mut s = String::from_str("{\"type\":\"limit\",\"side\":\"");
                s.append(side.wire_str());
                s.append("\",\"product_id\":\"");
                let escaped = crate::json::json_escape(product_id.as_str());
                s.append(escaped.as_str());
                s.append("\",\"price\":");
                let p = price.render();
                s.append(p.as_str());
                s.append(",\"size\":");
                let z = size.render();
                s.append(z.as_str());
                s.append("}");
                proof {
                    assert(s@ =~= encode_order(*self));
                }
                s
            },
            NewOrder::Market { side, product_id, size_or_funds } => {
                let mut s = String::from_str("{\"type\":\"market\",\"side\":\"");
                s.append(side.wire_str());
                s.append("\",\"product_id\":\"");
                let escaped = crate::json::json_escape(product_id.as_str());
                s.append(escaped.as_str());
                s.append("\",");
                match size_or_funds {
                    SizeOrFunds::Size(d) => {
                        s.append("\"size\":");
                        let z = d.render();
                        s.append(z.as_str());
                    },
                    SizeOrFunds::Funds(d) => {
                        s.append("\"funds\":");
                        let z = d.render();
                        s.append(z.as_str());
                    },
                }
                s.append("}");
                proof {
                    assert(s@ =~= encode_order(*self));
                }
                s
            },
            NewOrder::Stop { side, product_id, price, size_or_funds } => {
                let mut s = String::from_str("{\"type\":\"stop\",\"side\":\"");
                s.append(side.wire_str());
                s.append("\",\"product_id\":\"");
                let escaped = crate::json::json_escape(product_id.as_str());
                s.append(escaped.as_str());
                s.append("\",\"price\":");
                let p = price.render();
                s.append(p.as_str());
                s.append(",");
                match size_or_funds {
                    SizeOrFunds::Size(d) => {
                        s.append("\"size\":");
                        let z = d.render();
                        s.append(z.as_str());
                    },
                    SizeOrFunds::Funds(d) => {
                        s.append("\"funds\":");
                        let z = d.render();
                        s.append(z.as_str());
                    },
                }
                s.append("}");
                proof {
                    assert(s@ =~= encode_order(*self));
                }
                s
            },
        }
    }
}

/// The product id an order names.
pub open spec fn product_id_of(o: NewOrder) -> String {
    match o {
        NewOrder::Limit { product_id, .. } => product_id,
        NewOrder::Market { product_id, .. } => product_id,
        NewOrder::Stop { product_id, .. } => product_id,
    }
}

/// The quantity a tree carries: a well-shaped `size` field, or a
/// well-shaped `funds` field, and never both.
pub open spec fn sf_of(t: JsonVal) -> Option<SizeOrFunds> {
    match (dec_field(t, "size"@), dec_field(t, "funds"@)) {
        (Some(d), None) => Some(SizeOrFunds::Size(d)),
        (None, Some(d)) => Some(SizeOrFunds::Funds(d)),
        _ => None,
    }
}

/// Which trees decode as a [`NewOrder`]: the `type` discriminator picks
/// the variant, and the variant's own fields must all be present.
pub open spec fn order_ok(t: JsonVal) -> bool {
    match str_field(t, "type"@) {
        Some(ty) => if ty == "limit"@ {
            &&& side_field(t, "side"@) is Some
            &&& str_field(t, "product_id"@) is Some
            &&& dec_field(t, "price"@) is Some
            &&& dec_field(t, "size"@) is Some
        } else if ty == "market"@ {
            &&& side_field(t, "side"@) is Some
            &&& str_field(t, "product_id"@) is Some
            &&& sf_of(t) is Some
        } else if ty == "stop"@ {
            &&& side_field(t, "side"@) is Some
            &&& str_field(t, "product_id"@) is Some
            &&& dec_field(t, "price"@) is Some
            &&& sf_of(t) is Some
        } else {
            false
        },
        None => false,
    }
}

/// What a decoded [`NewOrder`] holds, variant by variant.
pub open spec fn order_matches(t: JsonVal, o: NewOrder) -> bool {
    match o {
        NewOrder::Limit { side, product_id, price, size } => {
            &&& str_field(t, "type"@) == Some("limit"@)
            &&& side_field(t, "side"@) == Some(side)
            &&& str_field(t, "product_id"@) == Some(product_id@)
            &&& dec_field(t, "price"@) == Some(price)
            &&& dec_field(t, "size"@) == Some(size)
        },
        NewOrder::Market { side, product_id, size_or_funds } => {
            &&& str_field(t, "type"@) == Some("market"@)
            &&& side_field(t, "side"@) == Some(side)
            &&& str_field(t, "product_id"@) == Some(product_id@)
            &&& sf_of(t) == Some(size_or_funds)
        },
        NewOrder::Stop { side, product_id, price, size_or_funds } => {
            &&& str_field(t, "type"@) == Some("stop"@)
            &&& side_field(t, "side"@) == Some(side)
            &&& str_field(t, "product_id"@) == Some(product_id@)
            &&& dec_field(t, "price"@) == Some(price)
            &&& sf_of(t) == Some(size_or_funds)
        },
    }
}

fn decode_size_or_funds(j: &Json) -> (r: Result<SizeOrFunds, Error>)
    ensures
        match r {
            Ok(sf) => sf_of(json_view(*j)) == Some(sf) && size_or_funds_wf(sf),
            Err(e) => sf_of(json_view(*j)) is None && e is Json,
        },
{
    let size = get_dec(j, "size");
    let funds = get_dec(j, "funds");
    match (size, funds) {
        (Ok(d), Err(_)) => Ok(SizeOrFunds::Size(d)),
        (Err(_), Ok(d)) => Ok(SizeOrFunds::Funds(d)),
        _ => Err(crate::decode::decode_error()),
    }
}

/// Decode an order body of the exchange's documented shape back into a
/// [`NewOrder`].
pub fn decode_new_order(j: &Json) -> (r: Result<NewOrder, Error>)
    ensures
        match r {
            Ok(o) => order_ok(json_view(*j)) && order_matches(json_view(*j), o) && order_wf(o),
            Err(e) => !order_ok(json_view(*j)) && e is Json,
        },
{
    let ty = match get_str(j, "type") {
        Ok(v) => v,
        Err(e) => {
            return Err(e);
        },
    };
    let is_limit = crate::json::str_eq(ty.as_str(), "limit");
    let is_market = crate::json::str_eq(ty.as_str(), "market");
    let is_stop = crate::json::str_eq(ty.as_str(), "stop");
    if !is_limit && !is_market && !is_stop {
        return Err(crate::decode::decode_error());
    }
    let side = match get_side(j, "side") {
        Ok(v) => v,
        Err(e) => {
            return Err(e);
        },
    };
    let product_id = match get_str(j, "product_id") {
        Ok(v) => v,
        Err(e) => {
            return Err(e);
        },
    };
    if is_limit {
        let price = match get_dec(j, "price") {
            Ok(v) => v,
            Err(e) => {
                return Err(e);
            },
        };
        let size = match get_dec(j, "size") {
            Ok(v) => v,
            Err(e) => {
                return Err(e);
            },
        };
        Ok(NewOrder::Limit { side, product_id, price, size })
    } else if is_market {
        let size_or_funds = match decode_size_or_funds(j) {
            Ok(v) => v,
            Err(e) => {
                return Err(e);
            },
        };
        Ok(NewOrder::Market { side, product_id, size_or_funds })
    } else {
        let price = match get_dec(j, "price") {
            Ok(v) => v,
            Err(e) => {
                return Err(e);
            },
        };
        let size_or_funds = match decode_size_or_funds(j) {
            Ok(v) => v,
            Err(e) => {
                return Err(e);
            },
        };
        Ok(NewOrder::Stop { side, product_id, price, size_or_funds })
    }
}

/// The object entry a quantity contributes to the documented shape.
pub open spec fn sf_entry(sf: SizeOrFunds) -> (Seq<char>, JsonVal) {
    match sf {
        SizeOrFunds::Size(d) => ("size"@, JsonVal::Num(dec_render(d))),
        SizeOrFunds::Funds(d) => ("funds"@, JsonVal::Num(dec_render(d))),
    }
}

/// The documented JSON shape of an order, as a tree: what the encoded
/// body spells, field for field and in the same order.
pub open spec fn order_tree(o: NewOrder) -> JsonVal {
    match o {
        NewOrder::Limit { side, product_id, price, size } => JsonVal::Obj(
            seq![
                ("type"@, JsonVal::Str("limit"@)),
                ("side"@, JsonVal::Str(side_wire_chars(side))),
                ("product_id"@, JsonVal::Str(product_id@)),
                ("price"@, JsonVal::Num(dec_render(price))),
                ("size"@, JsonVal::Num(dec_render(size))),
            ],
        ),
        NewOrder::Market { side, product_id, size_or_funds } => JsonVal::Obj(
            seq![
                ("type"@, JsonVal::Str("market"@)),
                ("side"@, JsonVal::Str(side_wire_chars(side))),
                ("product_id"@, JsonVal::Str(product_id@)),
                sf_entry(size_or_funds),
            ],
        ),
        NewOrder::Stop { side, product_id, price, size_or_funds } => JsonVal::Obj(
            seq![
                ("type"@, JsonVal::Str("stop"@)),
                ("side"@, JsonVal::Str(side_wire_chars(side))),
                ("product_id"@, JsonVal::Str(product_id@)),
                ("price"@, JsonVal::Num(dec_render(price))),
                sf_entry(size_or_funds),
            ],
        ),
    }
}

/// The same order up to representation: same variant, same side, the same
/// product id character for character, and equal decimals.
pub open spec fn order_view_eq(o1: NewOrder, o2: NewOrder) -> bool {
    match (o1, o2) {
        (
            NewOrder::Limit { side: s1, product_id: p1, price: pr1, size: z1 },
            NewOrder::Limit { side: s2, product_id: p2, price: pr2, size: z2 },
        ) => s1 == s2 && p1@ == p2@ && pr1 == pr2 && z1 == z2,
        (
            NewOrder::Market { side: s1, product_id: p1, size_or_funds: f1 },
            NewOrder::Market { side: s2, product_id: p2, size_or_funds: f2 },
        ) => s1 == s2 && p1@ == p2@ && f1 == f2,
        (
            NewOrder::Stop { side: s1, product_id: p1, price: pr1, size_or_funds: f1 },
            NewOrder::Stop { side: s2, product_id: p2, price: pr2, size_or_funds: f2 },
        ) => s1 == s2 && p1@ == p2@ && pr1 == pr2 && f1 == f2,
        _ => false,
    }
}

proof fn lemma_order_keys_distinct()
    ensures
        "limit"@ != "market"@,
        "limit"@ != "stop"@,
        "market"@ != "stop"@,
        "type"@ != "side"@,
        "type"@ != "size"@,
        "side"@ != "size"@,
        "price"@ != "funds"@,
        "type"@ != "product_id"@,
        "side"@ != "product_id"@,
        "size"@ != "product_id"@,
        "price"@ != "product_id"@,
        "funds"@ != "product_id"@,
        "type"@ != "price"@,
        "side"@ != "price"@,
        "size"@ != "price"@,
        "type"@ != "funds"@,
        "side"@ != "funds"@,
        "size"@ != "funds"@,
{
    reveal_strlit("type");
    reveal_strlit("side");
    reveal_strlit("size");
    reveal_strlit("price");
    reveal_strlit("funds");
    reveal_strlit("product_id");
    assert("type"@[0] != "side"@[0]);
    assert("type"@[0] != "size"@[0]);
    assert("side"@[2] != "size"@[2]);
    assert("price"@[0] != "funds"@[0]);
    assert("product_id"@.len() != "type"@.len());
    assert("product_id"@.len() != "side"@.len());
    assert("product_id"@.len() != "size"@.len());
    assert("product_id"@.len() != "price"@.len());
    assert("product_id"@.len() != "funds"@.len());
    assert("type"@.len() != "price"@.len());
    assert("type"@.len() != "funds"@.len());
    assert("side"@.len() != "price"@.len());
    assert("side"@.len() != "funds"@.len());
    assert("size"@.len() != "price"@.len());
    assert("size"@.len() != "funds"@.len());
    reveal_strlit("limit");
    reveal_strlit("market");
    reveal_strlit("stop");
    assert("limit"@.len() != "market"@.len());
    assert("limit"@.len() != "stop"@.len());
    assert("market"@.len() != "stop"@.len());
}

#[verifier::rlimit(100)]
proof fn lemma_order_tree_fields_limit(o: NewOrder)
    requires
        order_wf(o),
        o is Limit,
    ensures
        order_ok(order_tree(o)),
        order_matches(order_tree(o), o),
        dec_field(order_tree(o), "funds"@) is None,
{
    reveal_strlit("type");
    reveal_strlit("side");
    reveal_strlit("product_id");
    reveal_strlit("price");
    reveal_strlit("size");
    reveal_strlit("funds");
    reveal_strlit("limit");
    reveal_strlit("market");
    reveal_strlit("stop");
    reveal_with_fuel(crate::json::lookup_field, 8);
    lemma_order_keys_distinct();
    let t = order_tree(o);
    let fs = t->Obj_0;
    match o {
        NewOrder::Limit { side, product_id, price, size } => {

            crate::lemma_side_round_trip(side);
            crate::decimal::lemma_dec_render_parse(price);
            crate::decimal::lemma_dec_render_parse(size);
            assert(fs =~= seq![
                ("type"@, JsonVal::Str("limit"@)),
                ("side"@, JsonVal::Str(side_wire_chars(side))),
                ("product_id"@, JsonVal::Str(product_id@)),
                ("price"@, JsonVal::Num(dec_render(price))),
                ("size"@, JsonVal::Num(dec_render(size))),
            ]);
            assert(fs.drop_first() =~= seq![
                ("side"@, JsonVal::Str(side_wire_chars(side))),
                ("product_id"@, JsonVal::Str(product_id@)),
                ("price"@, JsonVal::Num(dec_render(price))),
                ("size"@, JsonVal::Num(dec_render(size))),
            ]);
            assert(fs.drop_first().drop_first() =~= seq![
                ("product_id"@, JsonVal::Str(product_id@)),
                ("price"@, JsonVal::Num(dec_render(price))),
                ("size"@, JsonVal::Num(dec_render(size))),
            ]);
            assert(fs.drop_first().drop_first().drop_first() =~= seq![
                ("price"@, JsonVal::Num(dec_render(price))),
                ("size"@, JsonVal::Num(dec_render(size))),
            ]);
            assert(fs.drop_first().drop_first().drop_first().drop_first() =~= seq![
                ("size"@, JsonVal::Num(dec_render(size))),
            ]);
            assert(field_of(t, "type"@) == Some(JsonVal::Str("limit"@)));
            assert(field_of(t, "side"@) == Some(JsonVal::Str(side_wire_chars(side))));
            assert(field_of(t, "product_id"@) == Some(JsonVal::Str(product_id@)));
            assert(field_of(t, "price"@) == Some(JsonVal::Num(dec_render(price))));
            assert(field_of(t, "size"@) == Some(JsonVal::Num(dec_render(size))));
            assert(field_of(t, "funds"@) is None);
        },
        _ => {
            assert(false);
        },
    }
}

#[verifier::rlimit(100)]
proof fn lemma_order_tree_fields_market(o: NewOrder)
    requires
        order_wf(o),
        o is Market,
    ensures
        order_ok(order_tree(o)),
        order_matches(order_tree(o), o),
{
    reveal_strlit("type");
    reveal_strlit("side");
    reveal_strlit("product_id");
    reveal_strlit("price");
    reveal_strlit("size");
    reveal_strlit("funds");
    reveal_strlit("limit");
    reveal_strlit("market");
    reveal_strlit("stop");
    reveal_with_fuel(crate::json::lookup_field, 8);
    lemma_order_keys_distinct();
    let t = order_tree(o);
    let fs = t->Obj_0;
    match o {
        NewOrder::Market { side, product_id, size_or_funds } => {

            crate::lemma_side_round_trip(side);
            match size_or_funds {
                SizeOrFunds::Size(d) => {
                    crate::decimal::lemma_dec_render_parse(d);
                    assert(fs =~= seq![
                ("type"@, JsonVal::Str("market"@)),
                ("side"@, JsonVal::Str(side_wire_chars(side))),
                ("product_id"@, JsonVal::Str(product_id@)),
                ("size"@, JsonVal::Num(dec_render(d))),
            ]);
                    assert(fs.drop_first() =~= seq![
                        ("side"@, JsonVal::Str(side_wire_chars(side))),
                        ("product_id"@, JsonVal::Str(product_id@)),
                        ("size"@, JsonVal::Num(dec_render(d))),
                    ]);
                    assert(fs.drop_first().drop_first() =~= seq![
                        ("product_id"@, JsonVal::Str(product_id@)),
                        ("size"@, JsonVal::Num(dec_render(d))),
                    ]);
                    assert(fs.drop_first().drop_first().drop_first() =~= seq![
                        ("size"@, JsonVal::Num(dec_render(d))),
                    ]);
                    assert(field_of(t, "type"@) == Some(JsonVal::Str("market"@)));
                    assert(field_of(t, "side"@) == Some(JsonVal::Str(side_wire_chars(side))));
                    assert(field_of(t, "product_id"@) == Some(JsonVal::Str(product_id@)));
                    assert(field_of(t, "size"@) == Some(JsonVal::Num(dec_render(d))));
                            assert(field_of(t, "funds"@) is None);
                },
                SizeOrFunds::Funds(d) => {
                    crate::decimal::lemma_dec_render_parse(d);
                    assert(fs =~= seq![
                ("type"@, JsonVal::Str("market"@)),
                ("side"@, JsonVal::Str(side_wire_chars(side))),
                ("product_id"@, JsonVal::Str(product_id@)),
                ("funds"@, JsonVal::Num(dec_render(d))),
            ]);
                    assert(fs.drop_first() =~= seq![
                        ("side"@, JsonVal::Str(side_wire_chars(side))),
                        ("product_id"@, JsonVal::Str(product_id@)),
                        ("funds"@, JsonVal::Num(dec_render(d))),
                    ]);
                    assert(fs.drop_first().drop_first() =~= seq![
                        ("product_id"@, JsonVal::Str(product_id@)),
                        ("funds"@, JsonVal::Num(dec_render(d))),
                    ]);
                    assert(fs.drop_first().drop_first().drop_first() =~= seq![
                        ("funds"@, JsonVal::Num(dec_render(d))),
                    ]);
                    assert(field_of(t, "type"@) == Some(JsonVal::Str("market"@)));
                    assert(field_of(t, "side"@) == Some(JsonVal::Str(side_wire_chars(side))));
                    assert(field_of(t, "product_id"@) == Some(JsonVal::Str(product_id@)));
                    assert(field_of(t, "funds"@) == Some(JsonVal::Num(dec_render(d))));
                            assert(field_of(t, "size"@) is None);
                },
            }
        },
        _ => {
            assert(false);
        },
    }
}

#[verifier::rlimit(100)]
proof fn lemma_order_tree_fields_stop(o: NewOrder)
    requires
        order_wf(o),
        o is Stop,
    ensures
        order_ok(order_tree(o)),
        order_matches(order_tree(o), o),
{
    reveal_strlit("type");
    reveal_strlit("side");
    reveal_strlit("product_id");
    reveal_strlit("price");
    reveal_strlit("size");
    reveal_strlit("funds");
    reveal_strlit("limit");
    reveal_strlit("market");
    reveal_strlit("stop");
    reveal_with_fuel(crate::json::lookup_field, 8);
    lemma_order_keys_distinct();
    let t = order_tree(o);
    let fs = t->Obj_0;
    match o {
        NewOrder::Stop { side, product_id, price, size_or_funds } => {

            crate::lemma_side_round_trip(side);
            crate::decimal::lemma_dec_render_parse(price);
            match size_or_funds {
                SizeOrFunds::Size(d) => {
                    crate::decimal::lemma_dec_render_parse(d);
                    assert(fs =~= seq![
                ("type"@, JsonVal::Str("stop"@)),
                ("side"@, JsonVal::Str(side_wire_chars(side))),
                ("product_id"@, JsonVal::Str(product_id@)),
                ("price"@, JsonVal::Num(dec_render(price))),
                ("size"@, JsonVal::Num(dec_render(d))),
            ]);
                    assert(fs.drop_first() =~= seq![
                        ("side"@, JsonVal::Str(side_wire_chars(side))),
                        ("product_id"@, JsonVal::Str(product_id@)),
                        ("price"@, JsonVal::Num(dec_render(price))),
                        ("size"@, JsonVal::Num(dec_render(d))),
                    ]);
                    assert(fs.drop_first().drop_first() =~= seq![
                        ("product_id"@, JsonVal::Str(product_id@)),
                        ("price"@, JsonVal::Num(dec_render(price))),
                        ("size"@, JsonVal::Num(dec_render(d))),
                    ]);
                    assert(fs.drop_first().drop_first().drop_first() =~= seq![
                        ("price"@, JsonVal::Num(dec_render(price))),
                        ("size"@, JsonVal::Num(dec_render(d))),
                    ]);
                    assert(fs.drop_first().drop_first().drop_first().drop_first() =~= seq![
                        ("size"@, JsonVal::Num(dec_render(d))),
                    ]);
                    assert(field_of(t, "type"@) == Some(JsonVal::Str("stop"@)));
                    assert(field_of(t, "side"@) == Some(JsonVal::Str(side_wire_chars(side))));
                    assert(field_of(t, "product_id"@) == Some(JsonVal::Str(product_id@)));
                    assert(field_of(t, "price"@) == Some(JsonVal::Num(dec_render(price))));
                    assert(field_of(t, "size"@) == Some(JsonVal::Num(dec_render(d))));
                            assert(field_of(t, "funds"@) is None);
                },
                SizeOrFunds::Funds(d) => {
                    crate::decimal::lemma_dec_render_parse(d);
                    assert(fs =~= seq![
                ("type"@, JsonVal::Str("stop"@)),
                ("side"@, JsonVal::Str(side_wire_chars(side))),
                ("product_id"@, JsonVal::Str(product_id@)),
                ("price"@, JsonVal::Num(dec_render(price))),
                ("funds"@, JsonVal::Num(dec_render(d))),
            ]);
                    assert(fs.drop_first() =~= seq![
                        ("side"@, JsonVal::Str(side_wire_chars(side))),
                        ("product_id"@, JsonVal::Str(product_id@)),
                        ("price"@, JsonVal::Num(dec_render(price))),
                        ("funds"@, JsonVal::Num(dec_render(d))),
                    ]);
                    assert(fs.drop_first().drop_first() =~= seq![
                        ("product_id"@, JsonVal::Str(product_id@)),
                        ("price"@, JsonVal::Num(dec_render(price))),
                        ("funds"@, JsonVal::Num(dec_render(d))),
                    ]);
                    assert(fs.drop_first().drop_first().drop_first() =~= seq![
                        ("price"@, JsonVal::Num(dec_render(price))),
                        ("funds"@, JsonVal::Num(dec_render(d))),
                    ]);
                    assert(fs.drop_first().drop_first().drop_first().drop_first() =~= seq![
                        ("funds"@, JsonVal::Num(dec_render(d))),
                    ]);
                    assert(field_of(t, "type"@) == Some(JsonVal::Str("stop"@)));
                    assert(field_of(t, "side"@) == Some(JsonVal::Str(side_wire_chars(side))));
                    assert(field_of(t, "product_id"@) == Some(JsonVal::Str(product_id@)));
                    assert(field_of(t, "price"@) == Some(JsonVal::Num(dec_render(price))));
                    assert(field_of(t, "funds"@) == Some(JsonVal::Num(dec_render(d))));
                            assert(field_of(t, "size"@) is None);
                },
            }
        },
        _ => {
            assert(false);
        },
    }
}

proof fn lemma_order_tree_fields(o: NewOrder)
    requires
        order_wf(o),
    ensures
        order_ok(order_tree(o)),
        order_matches(order_tree(o), o),
        o is Limit ==> dec_field(order_tree(o), "funds"@) is None,
{
    match o {
        NewOrder::Limit { .. } => lemma_order_tree_fields_limit(o),
        NewOrder::Market { .. } => lemma_order_tree_fields_market(o),
        NewOrder::Stop { .. } => lemma_order_tree_fields_stop(o),
    }
}

/// Encoding then decoding round-trips: the documented shape of a
/// well-formed order decodes, and anything it decodes to is the same
/// order — same variant, same side, same product id, equal decimals, and
/// for market and stop orders the same single quantity field.
pub proof fn lemma_order_round_trip(o: NewOrder)
    requires
        order_wf(o),
    ensures
        order_ok(order_tree(o)),
        order_matches(order_tree(o), o),
        forall|o2: NewOrder| order_matches(order_tree(o), o2) ==> order_view_eq(o, o2),
{
    lemma_order_tree_fields(o);
    assert forall|o2: NewOrder| order_matches(order_tree(o), o2) implies order_view_eq(
        o,
        o2,
    ) by {
        lemma_order_keys_distinct();
    }
}

/// No market or stop encoding carries both a `size` and a `funds` field:
/// the documented shape holds exactly the one the quantity selects, and a
/// limit order's shape has no `funds` field at all.
pub proof fn lemma_no_size_and_funds(o: NewOrder)
    requires
        order_wf(o),
    ensures
        !(dec_field(order_tree(o), "size"@) is Some && dec_field(order_tree(o), "funds"@)
            is Some),
{
    lemma_order_tree_fields(o);
    reveal_strlit("limit");
    reveal_strlit("market");
    reveal_strlit("stop");
    let t = order_tree(o);
    match o {
        NewOrder::Limit { .. } => {
            assert(order_matches(t, o));
        },
        NewOrder::Market { .. } => {
            assert(sf_of(t) is Some);
        },
        NewOrder::Stop { .. } => {
            assert(sf_of(t) is Some);
        },
    }
}

/// An order the exchange reports as open.
#[derive(Clone, Debug)]
pub struct OpenOrder {
    pub id: OrderId,
    pub size: Decimal,
    pub price: Decimal,
    pub product_id: String,
    pub status: String,
    pub filled_size: Decimal,
    pub executed_value: Decimal,
    pub fill_fees: Decimal,
    pub settled: bool,
    pub side: Side,
    pub created_at: Timestamp,
}

/// A single order, opened or done.
#[derive(Clone, Debug)]
pub struct Order {
    pub id: OrderId,
    pub size: Decimal,
    pub price: Decimal,
    pub done_reason: Option<String>,
    pub status: String,
    pub settled: bool,
    pub filled_size: Decimal,
    pub executed_value: Decimal,
    pub product_id: String,
    pub fill_fees: Decimal,
    pub side: Side,
    pub created_at: Timestamp,
    pub done_at: Option<Timestamp>,
}

/// Which trees decode as an [`OpenOrder`].
pub open spec fn open_order_ok(t: JsonVal) -> bool {
    &&& uuid_field(t, "id"@) is Some
    &&& dec_field(t, "size"@) is Some
    &&& dec_field(t, "price"@) is Some
    &&& str_field(t, "product_id"@) is Some
    &&& str_field(t, "status"@) is Some
    &&& dec_field(t, "filled_size"@) is Some
    &&& dec_field(t, "executed_value"@) is Some
    &&& dec_field(t, "fill_fees"@) is Some
    &&& bool_field(t, "settled"@) is Some
    &&& side_field(t, "side"@) is Some
    &&& time_field(t, "created_at"@) is Some
}

/// What a decoded [`OpenOrder`] holds, field by field.
pub open spec fn open_order_matches(t: JsonVal, v: OpenOrder) -> bool {
    &&& uuid_field(t, "id"@) == Some(v.id@)
    &&& dec_field(t, "size"@) == Some(v.size)
    &&& dec_field(t, "price"@) == Some(v.price)
    &&& str_field(t, "product_id"@) == Some(v.product_id@)
    &&& str_field(t, "status"@) == Some(v.status@)
    &&& dec_field(t, "filled_size"@) == Some(v.filled_size)
    &&& dec_field(t, "executed_value"@) == Some(v.executed_value)
    &&& dec_field(t, "fill_fees"@) == Some(v.fill_fees)
    &&& bool_field(t, "settled"@) == Some(v.settled)
    &&& side_field(t, "side"@) == Some(v.side)
    &&& time_field(t, "created_at"@) == Some((v.created_at.secs, v.created_at.nanos))
}

/// Decode one open order.
pub fn decode_open_order(j: &Json) -> (r: Result<OpenOrder, Error>)
    ensures
        match r {
            Ok(v) => open_order_ok(json_view(*j)) && open_order_matches(json_view(*j), v),
            Err(e) => !open_order_ok(json_view(*j)) && e is Json,
        },
{
    let id = match get_uuid(j, "id") {
        Ok(v) => v,
        Err(e) => {
            return Err(e);
        },
    };
    let size = match get_dec(j, "size") {
        Ok(v) => v,
        Err(e) => {
            return Err(e);
        },
    };
    let price = match get_dec(j, "price") {
        Ok(v) => v,
        Err(e) => {
            return Err(e);
        },
    };
    let product_id = match get_str(j, "product_id") {
        Ok(v) => v,
        Err(e) => {
            return Err(e);
        },
    };
    let status = match get_str(j, "status") {
        Ok(v) => v,
        Err(e) => {
            return Err(e);
        },
    };
    let filled_size = match get_dec(j, "filled_size") {
        Ok(v) => v,
        Err(e) => {
            return Err(e);
        },
    };
    let executed_value = match get_dec(j, "executed_value") {
        Ok(v) => v,
        Err(e) => {
            return Err(e);
        },
    };
    let fill_fees = match get_dec(j, "fill_fees") {
        Ok(v) => v,
        Err(e) => {
            return Err(e);
        },
    };
    let settled = match get_bool(j, "settled") {
        Ok(v) => v,
        Err(e) => {
            return Err(e);
        },
    };
    let side = match get_side(j, "side") {
        Ok(v) => v,
        Err(e) => {
            return Err(e);
        },
    };
    let created_at = match get_time(j, "created_at") {
        Ok(v) => v,
        Err(e) => {
            return Err(e);
        },
    };
    Ok(OpenOrder { id, size, price, product_id, status, filled_size, executed_value, fill_fees, settled, side, created_at })
}

/// Which trees decode as an [`Order`].
pub open spec fn order_record_ok(t: JsonVal) -> bool {
    &&& uuid_field(t, "id"@) is Some
    &&& dec_field(t, "size"@) is Some
    &&& dec_field(t, "price"@) is Some
    &&& opt_str_field(t, "done_reason"@) is Some
    &&& str_field(t, "status"@) is Some
    &&& bool_field(t, "settled"@) is Some
    &&& dec_field(t, "filled_size"@) is Some
    &&& dec_field(t, "executed_value"@) is Some
    &&& str_field(t, "product_id"@) is Some
    &&& dec_field(t, "fill_fees"@) is Some
    &&& side_field(t, "side"@) is Some
    &&& time_field(t, "created_at"@) is Some
    &&& opt_time_field(t, "done_at"@) is Some
}

/// What a decoded [`Order`] holds, field by field.
pub open spec fn order_record_matches(t: JsonVal, v: Order) -> bool {
    &&& uuid_field(t, "id"@) == Some(v.id@)
    &&& dec_field(t, "size"@) == Some(v.size)
    &&& dec_field(t, "price"@) == Some(v.price)
    &&& opt_str_field(t, "done_reason"@) == Some(
        match v.done_reason {
            Some(s) => Some(s@),
            None => None,
        },
    )
    &&& str_field(t, "status"@) == Some(v.status@)
    &&& bool_field(t, "settled"@) == Some(v.settled)
    &&& dec_field(t, "filled_size"@) == Some(v.filled_size)
    &&& dec_field(t, "executed_value"@) == Some(v.executed_value)
    &&& str_field(t, "product_id"@) == Some(v.product_id@)
    &&& dec_field(t, "fill_fees"@) == Some(v.fill_fees)
    &&& side_field(t, "side"@) == Some(v.side)
    &&& time_field(t, "created_at"@) == Some((v.created_at.secs, v.created_at.nanos))
    &&& opt_time_field(t, "done_at"@) == Some(
        match v.done_at {
            Some(u) => Some((u.secs, u.nanos)),
            None => None,
        },
    )
}

/// Decode one order record.
pub fn decode_order_record(j: &Json) -> (r: Result<Order, Error>)
    ensures
        match r {
            Ok(v) => order_record_ok(json_view(*j)) && order_record_matches(json_view(*j), v),
            Err(e) => !order_record_ok(json_view(*j)) && e is Json,
        },
{
    let id = match get_uuid(j, "id") {
        Ok(v) => v,
        Err(e) => {
            return Err(e);
        },
    };
    let size = match get_dec(j, "size") {
        Ok(v) => v,
        Err(e) => {
            return Err(e);
        },
    };
    let price = match get_dec(j, "price") {
        Ok(v) => v,
        Err(e) => {
            return Err(e);
        },
    };
    let done_reason = match get_opt_str(j, "done_reason") {
        Ok(v) => v,
        Err(e) => {
            return Err(e);
        },
    };
    let status = match get_str(j, "status") {
        Ok(v) => v,
        Err(e) => {
            return Err(e);
        },
    };
    let settled = match get_bool(j, "settled") {
        Ok(v) => v,
        Err(e) => {
            return Err(e);
        },
    };
    let filled_size = match get_dec(j, "filled_size") {
        Ok(v) => v,
        Err(e) => {
            return Err(e);
        },
    };
    let executed_value = match get_dec(j, "executed_value") {
        Ok(v) => v,
        Err(e) => {
            return Err(e);
        },
    };
    let product_id = match get_str(j, "product_id") {
        Ok(v) => v,
        Err(e) => {
            return Err(e);
        },
    };
    let fill_fees = match get_dec(j, "fill_fees") {
        Ok(v) => v,
        Err(e) => {
            return Err(e);
        },
    };
    let side = match get_side(j, "side") {
        Ok(v) => v,
        Err(e) => {
            return Err(e);
        },
    };
    let created_at = match get_time(j, "created_at") {
        Ok(v) => v,
        Err(e) => {
            return Err(e);
        },
    };
    let done_at = match get_opt_time(j, "done_at") {
        Ok(v) => v,
        Err(e) => {
            return Err(e);
        },
    };
    Ok(Order { id, size, price, done_reason, status, settled, filled_size, executed_value, product_id, fill_fees, side, created_at, done_at })
}

/// Which trees decode as a list of [`Account`] values.
pub open spec fn accounts_ok(t: JsonVal) -> bool {
    &&& t is Arr
    &&& forall|i: int| 0 <= i < t->Arr_0.len() ==> account_ok(#[trigger] t->Arr_0[i])
}

/// What a decoded list of [`Account`] values holds, element by element.
pub open spec fn accounts_match(t: JsonVal, s: Seq<Account>) -> bool {
    &&& t is Arr
    &&& s.len() == t->Arr_0.len()
    &&& forall|i: int| 0 <= i < s.len() ==> account_matches(t->Arr_0[i], #[trigger] s[i])
}

/// Decode the account list.
#[verifier::loop_isolation(false)]
pub fn decode_accounts(j: &Json) -> (r: Result<Vec<Account>, Error>)
    ensures
        match r {
            Ok(v) => accounts_ok(json_view(*j)) && accounts_match(json_view(*j), v@),
            Err(e) => !accounts_ok(json_view(*j)) && e is Json,
        },
{
    match j {
        Json::Arr(elems) => {
            let mut out: Vec<Account> = Vec::new();
            let n = elems.len();
            for i in 0..n
                invariant
                    n == elems@.len(),
                    out@.len() == i,
                    forall|k: int|
                        0 <= k < i ==> account_ok(#[trigger] elements_view(elems@)[k])
                            && account_matches(elements_view(elems@)[k], out@[k]),
            {
                match decode_account(&elems[i]) {
                    Ok(v) => out.push(v),
                    Err(e) => {
                        proof {
                            assert(elements_view(elems@)[i as int] == json_view(
                                elems@[i as int],
                            ));
                            assert(json_view(*j)->Arr_0 == elements_view(elems@));
                            assert(!account_ok(json_view(*j)->Arr_0[i as int]));
                        }
                        return Err(e);
                    },
                }
            }
            Ok(out)
        },
        _ => Err(crate::decode::decode_error()),
    }
}

/// Which trees decode as a list of [`LedgerEntry`] values.
pub open spec fn ledger_entries_ok(t: JsonVal) -> bool {
    &&& t is Arr
    &&& forall|i: int| 0 <= i < t->Arr_0.len() ==> ledger_entry_ok(#[trigger] t->Arr_0[i])
}

/// What a decoded list of [`LedgerEntry`] values holds, element by element.
pub open spec fn ledger_entries_match(t: JsonVal, s: Seq<LedgerEntry>) -> bool {
    &&& t is Arr
    &&& s.len() == t->Arr_0.len()
    &&& forall|i: int| 0 <= i < s.len() ==> ledger_entry_matches(t->Arr_0[i], #[trigger] s[i])
}

/// Decode the ledger.
#[verifier::loop_isolation(false)]
pub fn decode_ledger_entries(j: &Json) -> (r: Result<Vec<LedgerEntry>, Error>)
    ensures
        match r {
            Ok(v) => ledger_entries_ok(json_view(*j)) && ledger_entries_match(json_view(*j), v@),
            Err(e) => !ledger_entries_ok(json_view(*j)) && e is Json,
        },
{
    match j {
        Json::Arr(elems) => {
            let mut out: Vec<LedgerEntry> = Vec::new();
            let n = elems.len();
            for i in 0..n
                invariant
                    n == elems@.len(),
                    out@.len() == i,
                    forall|k: int|
                        0 <= k < i ==> ledger_entry_ok(#[trigger] elements_view(elems@)[k])
                            && ledger_entry_matches(elements_view(elems@)[k], out@[k]),
            {
                match decode_ledger_entry(&elems[i]) {
                    Ok(v) => out.push(v),
                    Err(e) => {
                        proof {
                            assert(elements_view(elems@)[i as int] == json_view(
                                elems@[i as int],
                            ));
                            assert(json_view(*j)->Arr_0 == elements_view(elems@));
                            assert(!ledger_entry_ok(json_view(*j)->Arr_0[i as int]));
                        }
                        return Err(e);
                    },
                }
            }
            Ok(out)
        },
        _ => Err(crate::decode::decode_error()),
    }
}

/// Which trees decode as a list of [`Hold`] values.
pub open spec fn holds_ok(t: JsonVal) -> bool {
    &&& t is Arr
    &&& forall|i: int| 0 <= i < t->Arr_0.len() ==> hold_ok(#[trigger] t->Arr_0[i])
}

/// What a decoded list of [`Hold`] values holds, element by element.
pub open spec fn holds_match(t: JsonVal, s: Seq<Hold>) -> bool {
    &&& t is Arr
    &&& s.len() == t->Arr_0.len()
    &&& forall|i: int| 0 <= i < s.len() ==> hold_matches(t->Arr_0[i], #[trigger] s[i])
}

/// Decode the hold list.
#[verifier::loop_isolation(false)]
pub fn decode_holds(j: &Json) -> (r: Result<Vec<Hold>, Error>)
    ensures
        match r {
            Ok(v) => holds_ok(json_view(*j)) && holds_match(json_view(*j), v@),
            Err(e) => !holds_ok(json_view(*j)) && e is Json,
        },
{
    match j {
        Json::Arr(elems) => {
            let mut out: Vec<Hold> = Vec::new();
            let n = elems.len();
            for i in 0..n
                invariant
                    n == elems@.len(),
                    out@.len() == i,
                    forall|k: int|
                        0 <= k < i ==> hold_ok(#[trigger] elements_view(elems@)[k])
                            && hold_matches(elements_view(elems@)[k], out@[k]),
            {
                match decode_hold(&elems[i]) {
                    Ok(v) => out.push(v),
                    Err(e) => {
                        proof {
                            assert(elements_view(elems@)[i as int] == json_view(
                                elems@[i as int],
                            ));
                            assert(json_view(*j)->Arr_0 == elements_view(elems@));
                            assert(!hold_ok(json_view(*j)->Arr_0[i as int]));
                        }
                        return Err(e);
                    },
                }
            }
            Ok(out)
        },
        _ => Err(crate::decode::decode_error()),
    }
}

/// Which trees decode as a list of [`OpenOrder`] values.
pub open spec fn open_orders_ok(t: JsonVal) -> bool {
    &&& t is Arr
    &&& forall|i: int| 0 <= i < t->Arr_0.len() ==> open_order_ok(#[trigger] t->Arr_0[i])
}

/// What a decoded list of [`OpenOrder`] values holds, element by element.
pub open spec fn open_orders_match(t: JsonVal, s: Seq<OpenOrder>) -> bool {
    &&& t is Arr
    &&& s.len() == t->Arr_0.len()
    &&& forall|i: int| 0 <= i < s.len() ==> open_order_matches(t->Arr_0[i], #[trigger] s[i])
}

/// Decode the open-order list.
#[verifier::loop_isolation(false)]
pub fn decode_open_orders(j: &Json) -> (r: Result<Vec<OpenOrder>, Error>)
    ensures
        match r {
            Ok(v) => open_orders_ok(json_view(*j)) && open_orders_match(json_view(*j), v@),
            Err(e) => !open_orders_ok(json_view(*j)) && e is Json,
        },
{
    match j {
        Json::Arr(elems) => {
            let mut out: Vec<OpenOrder> = Vec::new();
            let n = elems.len();
            for i in 0..n
                invariant
                    n == elems@.len(),
                    out@.len() == i,
                    forall|k: int|
                        0 <= k < i ==> open_order_ok(#[trigger] elements_view(elems@)[k])
                            && open_order_matches(elements_view(elems@)[k], out@[k]),
            {
                match decode_open_order(&elems[i]) {
                    Ok(v) => out.push(v),
                    Err(e) => {
                        proof {
                            assert(elements_view(elems@)[i as int] == json_view(
                                elems@[i as int],
                            ));
                            assert(json_view(*j)->Arr_0 == elements_view(elems@));
                            assert(!open_order_ok(json_view(*j)->Arr_0[i as int]));
                        }
                        return Err(e);
                    },
                }
            }
            Ok(out)
        },
        _ => Err(crate::decode::decode_error()),
    }
}

/// Which trees decode as the id the exchange answers a posted order with.
pub open spec fn order_id_ok(t: JsonVal) -> bool {
    uuid_field(t, "id"@) is Some
}

/// What the decoded id holds.
pub open spec fn order_id_matches(t: JsonVal, u: OrderId) -> bool {
    uuid_field(t, "id"@) == Some(u@)
}

/// Decode the `{"id": ...}` answer to a posted order.
pub fn decode_order_id(j: &Json) -> (r: Result<OrderId, Error>)
    ensures
        match r {
            Ok(u) => order_id_ok(json_view(*j)) && order_id_matches(json_view(*j), u),
            Err(e) => !order_id_ok(json_view(*j)) && e is Json,
        },
{
    match crate::decode::get_uuid(j, "id") {
        Ok(u) => Ok(u),
        Err(e) => Err(e),
    }
}

/// Which trees decode as a plain list of order ids.
pub open spec fn order_ids_ok(t: JsonVal) -> bool {
    &&& t is Arr
    &&& forall|i: int|
        0 <= i < t->Arr_0.len() ==> ((#[trigger] t->Arr_0[i]) matches JsonVal::Str(s)
            && crate::ids::uuid_text_wf(s))
}

/// What a decoded id list holds.
pub open spec fn order_ids_match(t: JsonVal, s: Seq<OrderId>) -> bool {
    &&& t is Arr
    &&& s.len() == t->Arr_0.len()
    &&& forall|i: int|
        0 <= i < s.len() ==> (t->Arr_0[i] matches JsonVal::Str(u) && u == (#[trigger] s[i])@)
}

/// Decode the list of cancelled order ids.
#[verifier::loop_isolation(false)]
pub fn decode_order_ids(j: &Json) -> (r: Result<Vec<OrderId>, Error>)
    ensures
        match r {
            Ok(v) => order_ids_ok(json_view(*j)) && order_ids_match(json_view(*j), v@),
            Err(e) => !order_ids_ok(json_view(*j)) && e is Json,
        },
{
    match j {
        Json::Arr(elems) => {
            let mut out: Vec<OrderId> = Vec::new();
            let n = elems.len();
            for i in 0..n
                invariant
                    n == elems@.len(),
                    out@.len() == i,
                    forall|k: int|
                        0 <= k < i ==> ((#[trigger] elements_view(elems@)[k]) matches
                            JsonVal::Str(s) && crate::ids::uuid_text_wf(s) && s == out@[k]@),
            {
                proof {
                    assert(elements_view(elems@)[i as int] == json_view(elems@[i as int]));
                    assert(json_view(*j)->Arr_0 == elements_view(elems@));
                }
                match &elems[i] {
                    Json::Str(s) => match Uuid::parse(s.as_str()) {
                        Some(u) => out.push(u),
                        None => {
                            return Err(crate::decode::decode_error());
                        },
                    },
                    _ => {
                        return Err(crate::decode::decode_error());
                    },
                }
            }
            Ok(out)
        },
        _ => Err(crate::decode::decode_error()),
    }
}

/// A fully prepared authenticated request: the exact method, path and
/// body that were signed, together with every credential header value.
/// The transport must send these bytes unchanged, or the exchange will
/// reject the signature.
pub struct SignedRequest {
    pub method: String,
    pub url: String,
    pub path: String,
    pub body: String,
    pub key: String,
    pub signature: String,
    pub passphrase: String,
    pub timestamp: String,
}

/// A request carries its owner's credentials and a signature computed
/// over its own timestamp, method, path and body, and its URL is the
/// exchange origin plus the signed path.
pub open spec fn well_signed(
    req: SignedRequest,
    key: Seq<char>,
    secret: Seq<char>,
    passphrase: Seq<char>,
) -> bool {
    &&& req.key@ == key
    &&& req.passphrase@ == passphrase
    &&& crate::sign::signature_spec(secret, req.timestamp@, req.method@, req.path@, req.body@)
        == Some(req.signature@)
    &&& req.url@ == "https://api.gdax.com"@ + req.path@
}

impl SignedRequest {
    /// The headers to send: the four credential headers, the accepted
    /// content type, the library's user agent, and — when there is a
    /// body — its content type.
    pub fn headers(&self) -> (r: Vec<(String, String)>)
        ensures
            r@.len() == (if self.body@.len() == 0 { 6int } else { 7int }),
            r@[0].0@ == "CB-ACCESS-KEY"@ && r@[0].1@ == self.key@,
            r@[1].0@ == "CB-ACCESS-SIGN"@ && r@[1].1@ == self.signature@,
            r@[2].0@ == "CB-ACCESS-PASSPHRASE"@ && r@[2].1@ == self.passphrase@,
            r@[3].0@ == "CB-ACCESS-TIMESTAMP"@ && r@[3].1@ == self.timestamp@,
            r@[4].0@ == "Accept"@ && r@[4].1@ == "application/json"@,
            r@[5].0@ == "User-Agent"@ && r@[5].1@ == "rust-gdax-client/0.1.0"@,
            self.body@.len() != 0 ==> r@[6].0@ == "Content-Type"@ && r@[6].1@
                == "application/json"@,
    {
        let mut r: Vec<(String, String)> = Vec::new();
        r.push((String::from_str("CB-ACCESS-KEY"), self.key.clone()));
        r.push((String::from_str("CB-ACCESS-SIGN"), self.signature.clone()));
        r.push((String::from_str("CB-ACCESS-PASSPHRASE"), self.passphrase.clone()));
        r.push((String::from_str("CB-ACCESS-TIMESTAMP"), self.timestamp.clone()));
        r.push((String::from_str("Accept"), String::from_str("application/json")));
        r.push((String::from_str("User-Agent"), String::from_str("rust-gdax-client/0.1.0")));
        if !self.body.as_str().is_empty() {
            r.push((String::from_str("Content-Type"), String::from_str("application/json")));
        }
        r
    }
}

/// The query the order-status filters produce: the chosen filters in the
/// fixed order open, pending, active, joined by `&`.
pub open spec fn status_query(open: bool, pending: bool, active: bool) -> Seq<char> {
    (if open {
        "status=open"@
    } else {
        Seq::<char>::empty()
    }) + (if pending {
        (if open {
            "&"@
        } else {
            Seq::<char>::empty()
        }) + "status=pending"@
    } else {
        Seq::<char>::empty()
    }) + (if active {
        (if open || pending {
            "&"@
        } else {
            Seq::<char>::empty()
        }) + "status=active"@
    } else {
        Seq::<char>::empty()
    })
}

/// The path the order-status filters produce: no query at all when no
/// filter is chosen.
pub open spec fn orders_status_path(open: bool, pending: bool, active: bool) -> Seq<char> {
    if !open && !pending && !active {
        "/orders"@
    } else {
        "/orders?"@ + status_query(open, pending, active)
    }
}

/// The authenticated facade. It owns the immutable credentials and a
/// public client for the market-data endpoints; each call signs afresh
/// with its own timestamp, so nothing here is ever mutated.
pub struct Client {
    pub key: String,
    pub secret: String,
    pub passphrase: String,
    pub public_client: crate::public::Client,
}

impl Client {
    /// A private client for one set of credentials. A secret that is not
    /// valid base64 is found when the first request is signed.
    pub fn new(key: &str, secret: &str, passphrase: &str) -> (r: Client)
        ensures
            r.key@ == key@,
            r.secret@ == secret@,
            r.passphrase@ == passphrase@,
    {
        Client {
            key: key.to_owned(),
            secret: secret.to_owned(),
            passphrase: passphrase.to_owned(),
            public_client: crate::public::Client::new(),
        }
    }

    /// The market-data surface, by composition.
    pub fn market_data(&self) -> &crate::public::Client {
        &self.public_client
    }

    /// Sign one request with a fresh timestamp. Fails exactly when the
    /// secret is not valid base64.
    fn signed_request(&self, method: &str, path: &str, body: &str) -> (r: Result<
        SignedRequest,
        Error,
    >)
        ensures
            match r {
                Ok(req) => req.method@ == method@ && req.path@ == path@ && req.body@ == body@
                    && well_signed(req, self.key@, self.secret@, self.passphrase@),
                Err(e) => crate::sign::base64_decoded(self.secret@) is None && e
                    is InvalidSecretKey,
            },
    {
        let now = crate::clock::now_unix_secs();
        let timestamp = crate::text::i64_to_string(now);
        let signature = match crate::sign::sign(
            self.secret.as_str(),
            timestamp.as_str(),
            method,
            path,
            body,
        ) {
            Ok(s) => s,
            Err(e) => {
                return Err(e);
            },
        };
        let mut url = String::from_str("https://api.gdax.com");
        url.append(path);
        Ok(
            SignedRequest {
                method: method.to_owned(),
                url,
                path: path.to_owned(),
                body: body.to_owned(),
                key: self.key.clone(),
                signature,
                passphrase: self.passphrase.clone(),
                timestamp,
            },
        )
    }

    /// `GET /accounts`.
    pub fn get_accounts(&self) -> (r: Result<SignedRequest, Error>)
        ensures
            match r {
                Ok(req) => req.method@ == "GET"@ && req.path@ == "/accounts"@ && req.body@
                    == ""@ && well_signed(req, self.key@, self.secret@, self.passphrase@),
                Err(e) => crate::sign::base64_decoded(self.secret@) is None && e
                    is InvalidSecretKey,
            },
    {
        self.signed_request("GET", "/accounts", "")
    }

    /// `GET /accounts/{id}`.
    pub fn get_account(&self, id: &Uuid) -> (r: Result<SignedRequest, Error>)
        ensures
            match r {
                Ok(req) => req.method@ == "GET"@ && req.path@ == "/accounts/"@ + id@
                    && req.body@ == ""@ && well_signed(
                    req,
                    self.key@,
                    self.secret@,
                    self.passphrase@,
                ),
                Err(e) => crate::sign::base64_decoded(self.secret@) is None && e
                    is InvalidSecretKey,
            },
    {
        let mut path = String::from_str("/accounts/");
        path.append(id.as_str());
        self.signed_request("GET", path.as_str(), "")
    }

    /// `GET /accounts/{id}/ledger`.
    pub fn get_account_history(&self, id: &Uuid) -> (r: Result<SignedRequest, Error>)
        ensures
            match r {
                Ok(req) => req.method@ == "GET"@ && req.path@ == "/accounts/"@ + id@
                    + "/ledger"@ && req.body@ == ""@ && well_signed(
                    req,
                    self.key@,
                    self.secret@,
                    self.passphrase@,
                ),
                Err(e) => crate::sign::base64_decoded(self.secret@) is None && e
                    is InvalidSecretKey,
            },
    {
        let mut path = String::from_str("/accounts/");
        path.append(id.as_str());
        path.append("/ledger");
        self.signed_request("GET", path.as_str(), "")
    }

    /// `GET /accounts/{id}/holds`.
    pub fn get_account_holds(&self, id: &Uuid) -> (r: Result<SignedRequest, Error>)
        ensures
            match r {
                Ok(req) => req.method@ == "GET"@ && req.path@ == "/accounts/"@ + id@ + "/holds"@
                    && req.body@ == ""@ && well_signed(
                    req,
                    self.key@,
                    self.secret@,
                    self.passphrase@,
                ),
                Err(e) => crate::sign::base64_decoded(self.secret@) is None && e
                    is InvalidSecretKey,
            },
    {
        let mut path = String::from_str("/accounts/");
        path.append(id.as_str());
        path.append("/holds");
        self.signed_request("GET", path.as_str(), "")
    }

    /// `POST /orders`: the body is the encoded order, and the signature
    /// covers exactly that body.
    pub fn post_order(&self, order: &NewOrder) -> (r: Result<SignedRequest, Error>)
        requires
            order_wf(*order),
        ensures
            match r {
                Ok(req) => req.method@ == "POST"@ && req.path@ == "/orders"@ && req.body@
                    == encode_order(*order) && well_signed(
                    req,
                    self.key@,
                    self.secret@,
                    self.passphrase@,
                ),
                Err(e) => crate::sign::base64_decoded(self.secret@) is None && e
                    is InvalidSecretKey,
            },
    {
        let body = order.encode();
        self.signed_request("POST", "/orders", body.as_str())
    }

    /// `DELETE /order/{id}`.
    pub fn cancel_order(&self, order_id: &OrderId) -> (r: Result<SignedRequest, Error>)
        ensures
            match r {
                Ok(req) => req.method@ == "DELETE"@ && req.path@ == "/order/"@ + order_id@
                    && req.body@ == ""@ && well_signed(
                    req,
                    self.key@,
                    self.secret@,
                    self.passphrase@,
                ),
                Err(e) => crate::sign::base64_decoded(self.secret@) is None && e
                    is InvalidSecretKey,
            },
    {
        let mut path = String::from_str("/order/");
        path.append(order_id.as_str());
        self.signed_request("DELETE", path.as_str(), "")
    }

    /// `DELETE /orders`, optionally narrowed to one product.
    pub fn cancel_all_orders(&self, product_id: Option<&str>) -> (r: Result<SignedRequest, Error>)
        ensures
            match r {
                Ok(req) => req.method@ == "DELETE"@ && req.body@ == ""@ && (match product_id {
                    Some(p) => req.path@ == "/orders?product_id="@ + p@,
                    None => req.path@ == "/orders"@,
                }) && well_signed(req, self.key@, self.secret@, self.passphrase@),
                Err(e) => crate::sign::base64_decoded(self.secret@) is None && e
                    is InvalidSecretKey,
            },
    {
        match product_id {
            Some(p) => {
                let mut path = String::from_str("/orders?product_id=");
                path.append(p);
                self.signed_request("DELETE", path.as_str(), "")
            },
            None => self.signed_request("DELETE", "/orders", ""),
        }
    }

    /// `GET /orders` with status filters: only the chosen filters appear,
    /// in the fixed order open, pending, active, joined by `&`; with no
    /// filter chosen the query is omitted entirely.
    pub fn get_orders_with_status(&self, open: bool, pending: bool, active: bool) -> (r: Result<
        SignedRequest,
        Error,
    >)
        ensures
            match r {
                Ok(req) => req.method@ == "GET"@ && req.path@ == orders_status_path(
                    open,
                    pending,
                    active,
                ) && req.body@ == ""@ && well_signed(
                    req,
                    self.key@,
                    self.secret@,
                    self.passphrase@,
                ),
                Err(e) => crate::sign::base64_decoded(self.secret@) is None && e
                    is InvalidSecretKey,
            },
    {
        if !open && !pending && !active {
            return self.signed_request("GET", "/orders", "");
        }
        let mut path = String::from_str("/orders?");
        if open {
            path.append("status=open");
        }
        if pending {
            if open {
                path.append("&");
            }
            path.append("status=pending");
        }
        if active {
            if open || pending {
                path.append("&");
            }
            path.append("status=active");
        }
        proof {
            assert(path@ =~= orders_status_path(open, pending, active));
        }
        self.signed_request("GET", path.as_str(), "")
    }

    /// `GET /orders` with every status filter set.
    pub fn get_orders(&self) -> (r: Result<SignedRequest, Error>)
        ensures
            match r {
                Ok(req) => req.method@ == "GET"@ && req.path@ == orders_status_path(
                    true,
                    true,
                    true,
                ) && req.body@ == ""@ && well_signed(
                    req,
                    self.key@,
                    self.secret@,
                    self.passphrase@,
                ),
                Err(e) => crate::sign::base64_decoded(self.secret@) is None && e
                    is InvalidSecretKey,
            },
    {
        self.get_orders_with_status(true, true, true)
    }

    /// `GET /orders/{id}`.
    pub fn get_order(&self, order_id: &OrderId) -> (r: Result<SignedRequest, Error>)
        ensures
            match r {
                Ok(req) => req.method@ == "GET"@ && req.path@ == "/orders/"@ + order_id@
                    && req.body@ == ""@ && well_signed(
                    req,
                    self.key@,
                    self.secret@,
                    self.passphrase@,
                ),
                Err(e) => crate::sign::base64_decoded(self.secret@) is None && e
                    is InvalidSecretKey,
            },
    {
        let mut path = String::from_str("/orders/");
        path.append(order_id.as_str());
        self.signed_request("GET", path.as_str(), "")
    }
}

/// Decode the account list response.
pub fn decode_accounts_response(status: u16, body: &str) -> (r: Result<Vec<Account>, Error>)
    ensures
        crate::decode::response_contract(
            status,
            body@,
            r,
            |t: JsonVal| accounts_ok(t),
            |t: JsonVal, v: Vec<Account>| accounts_match(t, v@),
        ),
{
    match crate::decode::check_response(status, body) {
        Ok(j) => decode_accounts(&j),
        Err(e) => Err(e),
    }
}

/// Decode the single account response.
pub fn decode_account_response(status: u16, body: &str) -> (r: Result<Account, Error>)
    ensures
        crate::decode::response_contract(
            status,
            body@,
            r,
            |t: JsonVal| account_ok(t),
            |t: JsonVal, v: Account| account_matches(t, v),
        ),
{
    match crate::decode::check_response(status, body) {
        Ok(j) => decode_account(&j),
        Err(e) => Err(e),
    }
}

/// Decode the ledger response.
pub fn decode_ledger_response(status: u16, body: &str) -> (r: Result<Ledger, Error>)
    ensures
        crate::decode::response_contract(
            status,
            body@,
            r,
            |t: JsonVal| ledger_entries_ok(t),
            |t: JsonVal, v: Ledger| ledger_entries_match(t, v@),
        ),
{
    match crate::decode::check_response(status, body) {
        Ok(j) => decode_ledger_entries(&j),
        Err(e) => Err(e),
    }
}

/// Decode the hold list response.
pub fn decode_holds_response(status: u16, body: &str) -> (r: Result<Vec<Hold>, Error>)
    ensures
        crate::decode::response_contract(
            status,
            body@,
            r,
            |t: JsonVal| holds_ok(t),
            |t: JsonVal, v: Vec<Hold>| holds_match(t, v@),
        ),
{
    match crate::decode::check_response(status, body) {
        Ok(j) => decode_holds(&j),
        Err(e) => Err(e),
    }
}

/// Decode the posted-order id response.
pub fn decode_post_order_response(status: u16, body: &str) -> (r: Result<OrderId, Error>)
    ensures
        crate::decode::response_contract(
            status,
            body@,
            r,
            |t: JsonVal| order_id_ok(t),
            |t: JsonVal, v: OrderId| order_id_matches(t, v),
        ),
{
    match crate::decode::check_response(status, body) {
        Ok(j) => decode_order_id(&j),
        Err(e) => Err(e),
    }
}

/// Decode the cancelled-id list response.
pub fn decode_cancel_all_response(status: u16, body: &str) -> (r: Result<Vec<OrderId>, Error>)
    ensures
        crate::decode::response_contract(
            status,
            body@,
            r,
            |t: JsonVal| order_ids_ok(t),
            |t: JsonVal, v: Vec<OrderId>| order_ids_match(t, v@),
        ),
{
    match crate::decode::check_response(status, body) {
        Ok(j) => decode_order_ids(&j),
        Err(e) => Err(e),
    }
}

/// Decode the open-order list response.
pub fn decode_orders_response(status: u16, body: &str) -> (r: Result<Vec<OpenOrder>, Error>)
    ensures
        crate::decode::response_contract(
            status,
            body@,
            r,
            |t: JsonVal| open_orders_ok(t),
            |t: JsonVal, v: Vec<OpenOrder>| open_orders_match(t, v@),
        ),
{
    match crate::decode::check_response(status, body) {
        Ok(j) => decode_open_orders(&j),
        Err(e) => Err(e),
    }
}

/// Decode the order record response.
pub fn decode_order_response(status: u16, body: &str) -> (r: Result<Order, Error>)
    ensures
        crate::decode::response_contract(
            status,
            body@,
            r,
            |t: JsonVal| order_record_ok(t),
            |t: JsonVal, v: Order| order_record_matches(t, v),
        ),
{
    match crate::decode::check_response(status, body) {
        Ok(j) => decode_order_record(&j),
        Err(e) => Err(e),
    }
}

/// Decode the cancel-order response: the exchange returns no meaningful
/// body, so a success status with any valid JSON body is a success.
pub fn decode_cancel_order_response(status: u16, body: &str) -> (r: Result<(), Error>)
    ensures
        crate::decode::response_contract(
            status,
            body@,
            r,
            |t: JsonVal| true,
            |t: JsonVal, v: ()| true,
        ),
{
    match crate::decode::check_response(status, body) {
        Ok(_) => Ok(()),
        Err(e) => Err(e),
    }
}

} // verus!
