//! Opaque API keys: random issuance, a canonical base64 text encoding for
//! transport, and the reversible decode from that encoding.

use vstd::prelude::*;

verus! {

/// The canonical base64 text (standard alphabet, with padding) of a byte
/// sequence, as `base64::encode` produces it.
pub uninterp spec fn base64_of(bytes: Seq<u8>) -> Seq<char>;

/// Relies on `rand::random`: one byte from the process-wide generator.
/// Nothing is promised of the value drawn; callers state only what holds of
/// every outcome.
#[verifier::external_body]
fn random_byte() -> u8 {
    rand::random::<u8>()
}

/// Failure to obtain an API key from presented text: the key was absent, or
/// its text was not valid base64.
#[derive(Debug)]
pub enum ApiKeyError {
    NotFound(String),
    DecodeError(String),
}

/// An opaque bearer token wrapping a byte sequence; issuance draws 16 random
/// bytes. Two keys are equal iff their byte sequences are equal.
#[derive(Debug)]
pub struct ApiKey(Vec<u8>);

impl View for ApiKey {
    type V = Seq<u8>;

    closed spec fn view(&self) -> Seq<u8> {
        self.0@
    }
}

/// Relies on `base64::decode`: the canonical encoding of any byte sequence
/// decodes successfully, back to that same sequence. (Some non-canonical
/// texts also decode; nothing is claimed of their value.)
#[verifier::external_body]
fn b64_decode(s: &str) -> (r: Result<Vec<u8>, String>)
    ensures
        match r {
            Ok(v) => forall|b: Seq<u8>| s@ == base64_of(b) ==> v@ == b,
            Err(_) => forall|b: Seq<u8>| s@ != base64_of(b),
        },
{
    base64::decode(s).map_err(|e| e.to_string())
}

impl ApiKey {
    /// Relies on `base64::encode`: the standard, padded base64 text of the
    /// key's bytes, a pure function of them.
    #[verifier::external_body]
    pub fn to_base64(&self) -> (r: String)
        ensures
            r@ == base64_of(self@),
    {
        base64::encode(self.0.as_slice())
    }

    pub fn into_inner(self) -> (r: Vec<u8>)
        ensures
            r@ == self@,
    {
        self.0
    }

    pub fn as_bytes(&self) -> (r: &Vec<u8>)
        ensures
            r@ == self@,
    {
        &self.0
    }

    /// A fresh key: 16 bytes drawn from the process-wide random generator.
    pub fn generate() -> (r: Self)
        ensures
            r@.len() == 16,
    {
        let mut bytes: Vec<u8> = Vec::new();
        let mut i: usize = 0;
        while i < 16
            invariant
                bytes@.len() == i,
                i <= 16,
            decreases 16 - i,
        {
            bytes.push(random_byte());
            i += 1;
        }
        ApiKey(bytes)
    }

    /// Decodes presented base64 text into a key. The canonical encoding of
    /// any byte sequence is accepted and yields that sequence; text that is
    /// no canonical encoding of anything may instead be rejected with
    /// `DecodeError`.
    pub fn from_str(key: &str) -> (r: Result<Self, ApiKeyError>)
        ensures
            match r {
                Ok(k) => forall|b: Seq<u8>| key@ == base64_of(b) ==> k@ == b,
                Err(e) => (forall|b: Seq<u8>| key@ != base64_of(b)) && e matches ApiKeyError::DecodeError(_),
            },
    {
        match b64_decode(key) {
            Ok(bytes) => Ok(ApiKey(bytes)),
            Err(msg) => Err(ApiKeyError::DecodeError(msg)),
        }
    }
}

impl Clone for ApiKey {
    fn clone(&self) -> (r: Self)
        ensures
            r@ == self@,
    {
        let bytes = self.0.clone();
        assert(bytes@ =~= self.0@);
        ApiKey(bytes)
    }
}

impl PartialEq for ApiKey {
    fn eq(&self, other: &Self) -> (r: bool) {
        let r = self.0 == other.0;
        proof {
            if self.0@ =~= other.0@ {
                assert(self.0@ == other.0@);
            }
        }
        r
    }
}

impl vstd::std_specs::cmp::PartialEqSpecImpl for ApiKey {
    open spec fn obeys_eq_spec() -> bool {
        true
    }

    open spec fn eq_spec(&self, other: &Self) -> bool {
        self@ == other@
    }
}

impl Default for ApiKey {
    /// A fresh random key, as issuance uses.
    fn default() -> (r: Self)
        ensures
            r@.len() == 16,
    {
        ApiKey::generate()
    }
}

/// Round-trip law: decoding the encoding of a key always succeeds and yields
/// an equal key.
pub fn encode_then_decode(key: &ApiKey) -> (r: Result<ApiKey, ApiKeyError>)
    ensures
        match r {
            Ok(k) => k@ == key@,
            Err(_) => false,
        },
{
    let text = key.to_base64();
    ApiKey::from_str(text.as_str())
}

} // verus!
