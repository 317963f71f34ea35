//! The API key that guards every route, and the check of a request's
//! `Authorization` header against it.
use crate::text::{str_eq, suffix_from, trim, trim_str};
use subtle::ConstantTimeEq;
use vstd::prelude::*;
use vstd::string::StringSliceAdditionalSpecFns;
use vstd::utf8::{encode_utf8, encode_utf8_decode_utf8};

verus! {

/// The secret key that clients present as a bearer token.
pub struct ApiKey {
    key: String,
}

impl ApiKey {
    /// The key's text.
    pub closed spec fn spec_key(&self) -> Seq<char> {
        self.key@
    }

    /// The key configured as `raw`, without surrounding white space.
    pub fn new(raw: &str) -> (k: ApiKey)
        ensures
            k.spec_key() == trim(raw@),
    {
        ApiKey { key: trim_str(raw) }
    }

    /// The key's UTF-8 bytes.
    pub fn as_bytes(&self) -> (r: &[u8])
        ensures
            r@ == encode_utf8(self.spec_key()),
    {
        self.key.as_str().as_bytes()
    }
}

/// `ConstantTimeEq::ct_eq` of the `subtle` crate on byte slices, turned into
/// a `bool`: the slices are equal. The comparison takes a time that does not
/// depend on the contents when the lengths agree; the contract does not
/// speak of time.
#[verifier::external_body]
fn constant_time_eq(a: &[u8], b: &[u8]) -> (r: bool)
    ensures
        r == (a@ == b@),
{
    a.ct_eq(b).into()
}

/// The token of an `Authorization` header of the form `Bearer <token>`.
pub open spec fn bearer_token(header: Seq<char>) -> Option<Seq<char>> {
    if header.len() >= 7 && header.take(7) == "Bearer "@ {
        Some(header.skip(7))
    } else {
        None
    }
}

/// Whether a request whose `Authorization` header reads `header` (`None`
/// when it is missing or not visible ASCII) presents the key: the header must
/// be `Bearer ` followed by exactly the key.
pub open spec fn spec_authorized(header: Option<Seq<char>>, key: Seq<char>) -> bool {
    match header {
        Some(h) => match bearer_token(h) {
            Some(t) => t == key,
            None => false,
        },
        None => false,
    }
}

/// Checks a request's `Authorization` header against the key, comparing in
/// constant time.
pub fn authorize(header: Option<&str>, key: &ApiKey) -> (r: bool)
    ensures
        r == spec_authorized(match header { Some(h) => Some(h@), None => None }, key.spec_key()),
{
    match header {
        None => false,
        Some(h) => {
            let n = h.unicode_len();
            if n < 7 {
                return false;
            }
            let head = h.substring_char(0, 7);
            proof {
                reveal_strlit("Bearer ");
                assert(head@ =~= h@.take(7));
            }
            if !str_eq(head, "Bearer ") {
                return false;
            }
            let token = suffix_from(h, 7);
            let same = constant_time_eq(token.as_bytes(), key.as_bytes());
            proof {
                encode_utf8_decode_utf8(token@);
                encode_utf8_decode_utf8(key.spec_key());
            }
            same
        },
    }
}

} // verus!
