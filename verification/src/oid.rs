//! Object identities. The document store identifies every record by an
//! opaque 12-byte object id, written as a 24-character hexadecimal string.
//! The library holds such an id as two plain integers (the first eight and
//! the last four bytes, big-endian) so that identity comparisons are exact;
//! minting and hex parsing are delegated to the `bson` crate.

use vstd::prelude::*;

verus! {

/// An opaque 12-byte object id: `hi` holds the first eight bytes and `lo`
/// the last four (so `lo < 2^32`), both big-endian.
#[derive(Clone, Copy, Debug, Hash, PartialEq, Eq, Structural)]
pub struct ObjectId {
    pub hi: u64,
    pub lo: u64,
}

/// Is `c` a hexadecimal digit (either case)?
pub open spec fn is_hex_digit(c: char) -> bool {
    ('0' <= c && c <= '9') || ('a' <= c && c <= 'f') || ('A' <= c && c <= 'F')
}

/// The numeric value of one hexadecimal digit.
pub open spec fn hex_digit_val(c: char) -> nat {
    if '0' <= c && c <= '9' {
        (c as nat - '0' as nat) as nat
    } else if 'a' <= c && c <= 'f' {
        (c as nat - 'a' as nat + 10) as nat
    } else {
        (c as nat - 'A' as nat + 10) as nat
    }
}

/// The value of a big-endian string of hexadecimal digits.
pub open spec fn hex_seq_val(s: Seq<char>) -> nat
    decreases s.len(),
{
    if s.len() == 0 {
        0
    } else {
        hex_seq_val(s.drop_last()) * 16 + hex_digit_val(s.last())
    }
}

/// Is `s` a well-formed 24-character hexadecimal object id string?
pub open spec fn is_oid_hex(s: Seq<char>) -> bool {
    s.len() == 24 && forall|i: int| 0 <= i < 24 ==> is_hex_digit(s[i])
}

/// The object id that a well-formed 24-character hex string denotes.
pub open spec fn oid_of_hex(s: Seq<char>) -> ObjectId {
    ObjectId { hi: hex_seq_val(s.subrange(0, 16)) as u64, lo: hex_seq_val(s.subrange(16, 24)) as u64 }
}

/// Relies on `bson::oid::ObjectId::new`: a fresh 12-byte id built from the
/// current time, a per-process random value and a counter (it panics only
/// if the system clock is before 1970). Nothing can be promised of the
/// value, which depends on time and randomness.
#[verifier::external_body]
fn oid_new_raw() -> (u64, u64) {
    let b = bson::oid::ObjectId::new().bytes();
    let hi = u64::from_be_bytes([b[0], b[1], b[2], b[3], b[4], b[5], b[6], b[7]]);
    let lo = u64::from_be_bytes([0, 0, 0, 0, b[8], b[9], b[10], b[11]]);
    (hi, lo)
}

/// Relies on `bson::oid::ObjectId::parse_str`: it accepts exactly the
/// 24-character hexadecimal strings (both letter cases) and returns the id
/// whose twelve big-endian bytes those digits encode.
#[verifier::external_body]
fn oid_parse_raw(s: &str) -> (r: Option<(u64, u64)>)
    ensures
        r is Some <==> is_oid_hex(s@),
        r matches Some(p) ==> p.0 as nat == hex_seq_val(s@.subrange(0, 16)) && p.1 as nat
            == hex_seq_val(s@.subrange(16, 24)),
{
    match bson::oid::ObjectId::parse_str(s) {
        Ok(o) => {
            let b = o.bytes();
            let hi = u64::from_be_bytes([b[0], b[1], b[2], b[3], b[4], b[5], b[6], b[7]]);
            let lo = u64::from_be_bytes([0, 0, 0, 0, b[8], b[9], b[10], b[11]]);
            Some((hi, lo))
        },
        Err(_) => None,
    }
}

impl ObjectId {
    /// Mint a fresh id for a new record. The value comes from time and
    /// randomness, so nothing is promised of it.
    pub fn fresh() -> ObjectId {
        let (hi, lo) = oid_new_raw();
        ObjectId { hi, lo }
    }
}

/// Parse a 24-character hexadecimal object id string; `None` exactly on
/// every other input.
pub fn parse_object_id(s: &str) -> (r: Option<ObjectId>)
    ensures
        r is Some <==> is_oid_hex(s@),
        r is Some ==> r->0 == oid_of_hex(s@),
{
    match oid_parse_raw(s) {
        Some((hi, lo)) => Some(ObjectId { hi, lo }),
        None => None,
    }
}

} // verus!
