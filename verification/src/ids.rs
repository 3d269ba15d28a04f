//! Correlation IDs: the thread that ties a market snapshot to the decision,
//! the order and its fills.
//!
//! The UUID-based IDs hold the 128-bit value of the UUID, most significant
//! byte first (the order of `uuid::Uuid::as_u128`).

use vstd::prelude::*;

verus! {

/// The character of a hexadecimal digit, in lower case.
pub open spec fn hex_char(d: int) -> char {
    if d < 10 {
        (48 + d) as char
    } else {
        (87 + d) as char
    }
}

/// 16 to the power `e`.
pub open spec fn pow16(e: nat) -> nat
    decreases e,
{
    if e == 0 {
        1
    } else {
        16 * pow16((e - 1) as nat)
    }
}

/// The `i`-th hexadecimal digit of `v`, counted from the most significant
/// of its 32 digits.
pub open spec fn uuid_nibble(v: u128, i: int) -> int {
    (v as int / (pow16((31 - i) as nat) as int)) % 16
}

/// How many hyphens precede position `k` of the hyphenated form.
pub open spec fn hyphens_before(k: int) -> int {
    if k < 9 {
        0
    } else if k < 14 {
        1
    } else if k < 19 {
        2
    } else if k < 24 {
        3
    } else {
        4
    }
}

/// The hyphenated lower-case text of a UUID, `xxxxxxxx-xxxx-xxxx-xxxx-xxxxxxxxxxxx`.
pub open spec fn uuid_text(v: u128) -> Seq<char> {
    Seq::new(
        36,
        |k: int|
            if k == 8 || k == 13 || k == 18 || k == 23 {
                '-'
            } else {
                hex_char(uuid_nibble(v, k - hyphens_before(k)))
            },
    )
}

/// A version 4 (random) UUID of the RFC 4122 variant: the version nibble
/// (bits 76 to 79, the 13th hex digit, text position 14) is 4 and the two
/// variant bits (62 and 63) are `10`.
pub open spec fn is_uuid_v4(v: u128) -> bool {
    &&& (v as int / pow16(19) as int) % 16 == 4
    &&& (v as int / 0x4000_0000_0000_0000) % 4 == 2
}

/// A version 4 UUID is never the nil UUID.
pub proof fn lemma_uuid_v4_not_nil(v: u128)
    requires
        is_uuid_v4(v),
    ensures
        v != 0,
{
    if v == 0 {
        assert(0int / 0x4000_0000_0000_0000 == 0);
    }
}

/// Calls `uuid::Uuid::new_v4` and returns the UUID as a `u128`. The uuid
/// source masks a random value so that the version nibble is 4 and the
/// variant bits are `10`; that is what the contract claims. The random
/// bits themselves are unstated, and the call panics when the operating
/// system gives no random bytes.
#[verifier::external_body]
fn random_uuid_v4() -> (v: u128)
    ensures
        is_uuid_v4(v),
{
    uuid::Uuid::new_v4().as_u128()
}

/// Calls `Display` of `uuid::Uuid` (its hyphenated lower-case form) on the
/// UUID whose value is `v`; the contract claims the text that the uuid
/// source writes: the 32 hex digits of `v`, most significant first, split
/// 8-4-4-4-12 by hyphens.
#[verifier::external_body]
fn uuid_to_text(v: u128) -> (s: String)
    ensures
        s@ == uuid_text(v),
{
    uuid::Uuid::from_u128(v).to_string()
}

/// Unique identifier for an end-to-end trace.
/// Ties: market snapshot, decision, risk check, order, fills, PnL.
#[derive(Clone, Copy, Debug, PartialEq, Eq, Hash, Structural)]
pub struct TraceId(pub u128);

/// Unique identifier for a strategy decision.
#[derive(Clone, Copy, Debug, PartialEq, Eq, Hash, Structural)]
pub struct DecisionId(pub u128);

/// Exchange/venue-assigned order ID.
#[derive(Clone, Debug, PartialEq, Eq, Hash)]
pub struct OrderId(pub String);

/// Client-assigned order ID (survives retries and cancel/replace).
#[derive(Clone, Copy, Debug, PartialEq, Eq, Hash, Structural)]
pub struct ClientOrderId(pub u128);

/// Execution report ID (unique per fill event).
#[derive(Clone, Debug, PartialEq, Eq, Hash)]
pub struct ExecId(pub String);

/// Internal canonical symbol identifier.
#[derive(Clone, Debug, PartialEq, Eq, Hash)]
pub struct SymbolId(pub String);

impl TraceId {
    /// A fresh random (version 4) trace ID.
    pub fn new() -> (id: TraceId)
        ensures
            is_uuid_v4(id.0),
    {
        TraceId(random_uuid_v4())
    }

    /// The hyphenated text of the UUID, as `Display` writes it.
    pub fn to_string(&self) -> (s: String)
        ensures
            s@ == uuid_text(self.0),
    {
        uuid_to_text(self.0)
    }
}

impl DecisionId {
    /// A fresh random (version 4) decision ID.
    pub fn new() -> (id: DecisionId)
        ensures
            is_uuid_v4(id.0),
    {
        DecisionId(random_uuid_v4())
    }
}

impl ClientOrderId {
    /// A fresh random (version 4) client order ID.
    pub fn new() -> (id: ClientOrderId)
        ensures
            is_uuid_v4(id.0),
    {
        ClientOrderId(random_uuid_v4())
    }
}

impl SymbolId {
    /// The symbol's text, as `Display` writes it.
    pub fn to_string(&self) -> (s: String)
        ensures
            s@ == self.0@,
    {
        self.0.clone()
    }
}

} // verus!
