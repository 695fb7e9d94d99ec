//! The cached access-token record and its byte codec.
//!
//! A record is always read or written whole.  The byte layout is: the
//! token text's byte length as eight little-endian bytes, the token
//! text in UTF-8, then the expiry second as eight little-endian bytes.
//! Loading decodes the bytes and rejects a record whose expiry lies
//! before the given current instant; the unverified rim only moves the
//! bytes to and from the cache file.

use vstd::bytes::{
    lemma_auto_spec_u64_to_from_le_bytes, spec_u64_from_le_bytes, spec_u64_to_le_bytes,
    u64_from_le_bytes, u64_to_le_bytes,
};
use vstd::prelude::*;
use vstd::slice::slice_subrange;
use vstd::string::{StrSliceExecFns, StringSliceAdditionalSpecFns};
use vstd::utf8::{encode_utf8, decode_utf8, encode_utf8_decode_utf8, valid_utf8};

verus! {

/// A bearer token together with the absolute second it stops working.
///
/// The expiry is stored as a point in time, never as a remaining
/// duration, so staleness can be judged without knowing when the token
/// was issued.
#[derive(Clone, Debug)]
pub struct AccessToken {
    /// The opaque bearer credential.
    pub access_token: String,
    /// The absolute second (since the epoch) the token expires on.
    pub expires_on: i64,
}

impl PartialEq for AccessToken {
    fn eq(&self, other: &AccessToken) -> (r: bool) {
        self.access_token == other.access_token && self.expires_on == other.expires_on
    }
}

impl vstd::std_specs::cmp::PartialEqSpecImpl for AccessToken {
    open spec fn obeys_eq_spec() -> bool {
        true
    }

    open spec fn eq_spec(&self, other: &AccessToken) -> bool {
        self.access_token@ == other.access_token@ && self.expires_on == other.expires_on
    }
}

/// Why a stored record could not be used.
#[derive(Clone, Copy, PartialEq, Eq, Structural, Debug)]
pub enum StoreError {
    /// No record is cached.
    NotFound,
    /// The cached bytes do not decode to a record.
    CorruptRecord,
    /// The record decoded, but its expiry lies in the past.
    Expired,
}

/// The byte encoding of a record: the token text's UTF-8 length, the
/// token text, then the expiry second, each integer as eight
/// little-endian bytes.
pub open spec fn spec_encode_token(t: AccessToken) -> Seq<u8> {
    spec_u64_to_le_bytes(encode_utf8(t.access_token@).len() as u64) + encode_utf8(
        t.access_token@,
    ) + spec_u64_to_le_bytes(t.expires_on as u64)
}

/// What a byte string decodes to, if anything: the token text and the
/// expiry second of the one record encoding it.
pub open spec fn spec_decode_fields(b: Seq<u8>) -> Option<(Seq<char>, i64)> {
    if b.len() < 16 {
        None
    } else {
        let n = spec_u64_from_le_bytes(b.subrange(0, 8)) as int;
        if b.len() != 16 + n {
            None
        } else {
            let mid = b.subrange(8, 8 + n);
            if valid_utf8(mid) {
                Some(
                    (
                        decode_utf8(mid),
                        spec_u64_from_le_bytes(b.subrange(8 + n, b.len() as int)) as i64,
                    ),
                )
            } else {
                None
            }
        }
    }
}

/// Relies on std::str::from_utf8: it returns `Ok` exactly when the
/// bytes are valid UTF-8, viewing those same bytes as text.
#[verifier::external_body]
fn utf8_to_str<'a>(v: &'a [u8]) -> (r: Option<&'a str>)
    ensures
        r is Some <==> valid_utf8(v@),
        r matches Some(s) ==> s.spec_bytes() == v@,
{
    match core::str::from_utf8(v) {
        Ok(s) => Some(s),
        Err(_) => None,
    }
}

/// Serializes a record to the byte layout of [`spec_encode_token`].
pub fn encode_token(t: &AccessToken) -> (b: Vec<u8>)
    ensures
        b@ == spec_encode_token(*t),
{
    let token_bytes: Vec<u8> = t.access_token.as_str().as_bytes_vec();
    let mut b: Vec<u8> = u64_to_le_bytes(token_bytes.len() as u64);
    let mut middle: Vec<u8> = token_bytes;
    b.append(&mut middle);
    let mut tail: Vec<u8> = u64_to_le_bytes(#[verifier::truncate] (t.expires_on as u64));
    b.append(&mut tail);
    proof {
        assert(b@ =~= spec_encode_token(*t));
    }
    b
}

/// Deserializes a record, returning `None` exactly when the bytes are
/// not the encoding of one.
pub fn decode_token(b: &[u8]) -> (r: Option<AccessToken>)
    ensures
        r is Some <==> spec_decode_fields(b@) is Some,
        r matches Some(t) ==> spec_decode_fields(b@) == Some((t.access_token@, t.expires_on)),
{
    let len: usize = b.len();
    if len < 16 {
        return None;
    }
    let head: &[u8] = slice_subrange(b, 0, 8);
    let n64: u64 = u64_from_le_bytes(head);
    if n64 != (len - 16) as u64 {
        proof {
            assert(b@.len() != 16 + spec_u64_from_le_bytes(b@.subrange(0, 8)) as int);
        }
        return None;
    }
    let ghost n = spec_u64_from_le_bytes(b@.subrange(0, 8)) as int;
    assert(b@.len() == 16 + n);
    let mid: &[u8] = slice_subrange(b, 8, len - 8);
    assert(mid@ =~= b@.subrange(8, 8 + n));
    match utf8_to_str(mid) {
        None => None,
        Some(s) => {
            let token: String = s.to_owned();
            proof {
                encode_utf8_decode_utf8(token@);
            }
            let tail: &[u8] = slice_subrange(b, len - 8, len);
            assert(tail@ =~= b@.subrange(8 + n, b@.len() as int));
            let e64: u64 = u64_from_le_bytes(tail);
            Some(AccessToken { access_token: token, expires_on: #[verifier::truncate] (e64 as i64) })
        },
    }
}

/// Judges a freshly read record: no bytes mean no record, undecodable
/// bytes a corrupt one, and a decoded record is returned exactly when
/// its expiry does not lie before `now`.
pub fn load_token(bytes: Option<&Vec<u8>>, now: i64) -> (r: Result<AccessToken, StoreError>)
    ensures
        bytes is None ==> r == Err::<AccessToken, StoreError>(StoreError::NotFound),
        bytes matches Some(b) ==> match spec_decode_fields(b@) {
            None => r == Err::<AccessToken, StoreError>(StoreError::CorruptRecord),
            Some(f) => if now > f.1 {
                r == Err::<AccessToken, StoreError>(StoreError::Expired)
            } else {
                r matches Ok(t) && t.access_token@ == f.0 && t.expires_on == f.1
            },
        },
{
    match bytes {
        None => Err(StoreError::NotFound),
        Some(b) => match decode_token(b.as_slice()) {
            None => Err(StoreError::CorruptRecord),
            Some(t) => if now > t.expires_on {
                Err(StoreError::Expired)
            } else {
                Ok(t)
            },
        },
    }
}

/// Round trip of the codec: decoding an encoded record gives back
/// exactly the record's fields, for every token text a machine can
/// hold.
pub proof fn lemma_token_roundtrip(t: AccessToken)
    requires
        encode_utf8(t.access_token@).len() <= u64::MAX,
    ensures
        spec_decode_fields(spec_encode_token(t)) == Some((t.access_token@, t.expires_on)),
{
    lemma_auto_spec_u64_to_from_le_bytes();
    let utf8 = encode_utf8(t.access_token@);
    let n = utf8.len() as int;
    let b = spec_encode_token(t);
    assert(b.subrange(0, 8) =~= spec_u64_to_le_bytes(utf8.len() as u64));
    assert(b.len() == 16 + n);
    assert(b.subrange(8, 8 + n) =~= utf8);
    vstd::utf8::encode_utf8_valid_utf8(t.access_token@);
    encode_utf8_decode_utf8(t.access_token@);
    assert(b.subrange(8 + n, b.len() as int) =~= spec_u64_to_le_bytes(t.expires_on as u64));
    let e = t.expires_on;
    assert(((e as u64) as i64) == e) by (bit_vector);
}

} // verus!
