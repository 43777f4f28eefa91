//! Item identifiers: 128-bit values whose canonical text is the hyphenated
//! lower-case hexadecimal UUID form.
use vstd::prelude::*;

verus! {

/// Identifier of an item, as its 128-bit value.
#[derive(Debug, Clone, Copy, PartialEq, Eq, Structural, Hash)]
pub struct TodoId(pub u128);

/// `16` to the power `k`.
pub open spec fn pow16(k: nat) -> nat
    decreases k,
{
    if k == 0 {
        1
    } else {
        16 * pow16((k - 1) as nat)
    }
}

/// The lower-case hexadecimal digit for `d` (0 to 15).
pub open spec fn hex_char(d: int) -> char {
    seq!['0', '1', '2', '3', '4', '5', '6', '7', '8', '9', 'a', 'b', 'c', 'd', 'e', 'f'][d]
}

/// The `k`-th of the 32 hexadecimal digits of `v`, counted from the most significant.
pub open spec fn nibble(v: u128, k: int) -> int {
    ((v as nat / pow16((31 - k) as nat)) % 16) as int
}

/// Whether position `p` of the hyphenated form holds a hyphen.
pub open spec fn is_hyphen_position(p: int) -> bool {
    p == 8 || p == 13 || p == 18 || p == 23
}

/// How many hyphens stand before position `p` of the hyphenated form.
pub open spec fn hyphens_before(p: int) -> int {
    (if p > 8 { 1int } else { 0int }) + (if p > 13 { 1int } else { 0int }) + (if p > 18 {
        1int
    } else {
        0int
    }) + (if p > 23 { 1int } else { 0int })
}

/// Canonical text of `v`: 32 lower-case hex digits, most significant first,
/// in groups of 8-4-4-4-12 joined by hyphens.
pub open spec fn hyphenated(v: u128) -> Seq<char> {
    Seq::new(
        36,
        |p: int|
            if is_hyphen_position(p) {
                '-'
            } else {
                hex_char(nibble(v, p - hyphens_before(p)))
            },
    )
}

/// The value that `uuid::Uuid::parse_str` reads from a text, if it accepts it.
pub uninterp spec fn uuid_parsed(s: Seq<char>) -> Option<u128>;

/// Relies on `uuid::Uuid::parse_str` (simple, hyphenated, braced and URN forms):
/// whether the text is accepted, and the value read, depend on the text alone.
/// The canonical hyphenated text of a value reads back as that value.
#[verifier::external_body]
fn parse_uuid(s: &str) -> (r: Option<u128>)
    ensures
        r == uuid_parsed(s@),
        forall|v: u128| #[trigger] hyphenated(v) == s@ ==> r == Some(v),
{
    match uuid::Uuid::parse_str(s) {
        Ok(u) => Some(u.as_u128()),
        Err(_) => None,
    }
}

/// Relies on `uuid::Uuid::from_u128` and its `Display`, which writes the
/// hyphenated lower-case form of the big-endian bytes of `v`.
#[verifier::external_body]
fn uuid_text(v: u128) -> (r: String)
    ensures
        r@ == hyphenated(v),
{
    uuid::Uuid::from_u128(v).to_string()
}

impl TodoId {
    /// The all-zero identifier.
    pub fn nil() -> (r: TodoId)
        ensures
            r.0 == 0,
    {
        TodoId(0)
    }

    /// Reads an identifier from text; `None` where the text is no UUID.
    pub fn parse(s: &str) -> (r: Option<TodoId>)
        ensures
            r matches Some(id) ==> uuid_parsed(s@) == Some(id.0),
            r is None <==> uuid_parsed(s@) is None,
            forall|v: u128| #[trigger] hyphenated(v) == s@ ==> r == Some(TodoId(v)),
    {
        match parse_uuid(s) {
            Some(v) => Some(TodoId(v)),
            None => None,
        }
    }

    /// The canonical hyphenated text of this identifier.
    pub fn to_text(&self) -> (r: String)
        ensures
            r@ == hyphenated(self.0),
    {
        uuid_text(self.0)
    }
}

} // verus!
