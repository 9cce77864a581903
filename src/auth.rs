//! Authenticity of webhook deliveries: the signature header and the body's HMAC.

use vstd::prelude::*;

use hmac::Mac;

verus! {

/// Why the signature header of a webhook delivery was refused.
#[derive(Debug, Clone, Copy, PartialEq, Eq, Structural)]
pub enum Error {
    MissingHeader,
    InvalidUtf8,
    InvalidHexadecimal,
}

impl Error {
    /// The HTTP status of the refusal: 404 for a missing header, 400 otherwise.
    pub fn status(&self) -> (r: u16)
        ensures
            r == (if *self == Error::MissingHeader {
                404u16
            } else {
                400u16
            }),
    {
        match self {
            Error::MissingHeader => 404,
            _ => 400,
        }
    }

    /// The body of the refusal.
    pub fn message(&self) -> (r: String)
        ensures
            r@ == match *self {
                Error::MissingHeader => "X-Alchemy-Signature header is missing"@,
                Error::InvalidUtf8 => "X-Alchemy-Signature header is not valid UTF-8"@,
                Error::InvalidHexadecimal => "X-Alchemy-Signature header is not valid hexadecimal"@,
            },
    {
        match self {
            Error::MissingHeader => String::from_str("X-Alchemy-Signature header is missing"),
            Error::InvalidUtf8 => String::from_str("X-Alchemy-Signature header is not valid UTF-8"),
            Error::InvalidHexadecimal => String::from_str(
                "X-Alchemy-Signature header is not valid hexadecimal",
            ),
        }
    }
}

/// A byte that a header value may hold as text: visible ASCII or a tab.
pub open spec fn is_visible_ascii(b: u8) -> bool {
    (32 <= b && b < 127) || b == 9
}

pub open spec fn hex_byte_value(b: u8) -> Option<int> {
    if 48 <= b && b <= 57 {
        Some(b - 48)
    } else if 97 <= b && b <= 102 {
        Some(b - 97 + 10)
    } else if 65 <= b && b <= 70 {
        Some(b - 65 + 10)
    } else {
        None
    }
}

/// The bytes that a text of hexadecimal digit pairs encodes, if it is one.
pub open spec fn hex_decoded(b: Seq<u8>) -> Option<Seq<u8>> {
    if b.len() % 2 == 0 && forall|i: int| 0 <= i < b.len() ==> (#[trigger] hex_byte_value(b[i])) is Some {
        Some(
            Seq::new(
                (b.len() / 2) as nat,
                |i: int| (hex_byte_value(b[2 * i]).unwrap() * 16 + hex_byte_value(b[2 * i + 1]).unwrap()) as u8,
            ),
        )
    } else {
        None
    }
}

/// Whether every byte may stand in a header value read as text.
fn all_visible_ascii(b: &[u8]) -> (r: bool)
    ensures
        r == forall|i: int| 0 <= i < b@.len() ==> is_visible_ascii(#[trigger] b@[i]),
{
    let mut i: usize = 0;
    while i < b.len()
        invariant
            i <= b@.len(),
            forall|j: int| 0 <= j < i ==> is_visible_ascii(#[trigger] b@[j]),
        decreases b@.len() - i,
    {
        let c = b[i];
        if !((32 <= c && c < 127) || c == 9) {
            assert(!is_visible_ascii(b@[i as int]));
            return false;
        }
        i = i + 1;
    }
    true
}

/// The HMAC-SHA256 tag of a message under a key.
pub uninterp spec fn hmac_sha256(key: Seq<u8>, msg: Seq<u8>) -> Seq<u8>;

/// Relies on `hex::decode`: an even number of hexadecimal digits, in either case, to bytes.
#[verifier::external_body]
fn decode_hex(b: &[u8]) -> (r: Option<Vec<u8>>)
    ensures
        match hex_decoded(b@) {
            Some(v) => r matches Some(x) && x@ == v,
            None => r is None,
        },
{
    match hex::decode(b) {
        Ok(v) => Some(v),
        Err(_) => None,
    }
}

/// Relies on `Hmac::<Sha256>::new_from_slice` (which takes a key of any length), `Mac::update`
/// and `Mac::verify_slice`: true exactly when `tag` is the HMAC-SHA256 of `msg` under `key`.
#[verifier::external_body]
fn verify_hmac_sha256(key: &[u8], msg: &[u8], tag: &[u8]) -> (r: bool)
    ensures
        r == (tag@ == hmac_sha256(key@, msg@)),
{
    match hmac::Hmac::<sha2::Sha256>::new_from_slice(key) {
        Ok(mut mac) => {
            mac.update(msg);
            mac.verify_slice(tag).is_ok()
        },
        Err(_) => false,
    }
}

/// The message-authentication code that a webhook delivery carries in its header.
#[derive(Debug)]
pub struct Signature(Vec<u8>);

impl View for Signature {
    type V = Seq<u8>;

    closed spec fn view(&self) -> Seq<u8> {
        self.0@
    }
}

impl Signature {
    /// Reads the signature header: absent, not text, or not hexadecimal are each refused.
    pub fn from_header(value: Option<Vec<u8>>) -> (r: Result<Signature, Error>)
        ensures
            match value {
                None => r == Err::<Signature, Error>(Error::MissingHeader),
                Some(b) => if !(forall|i: int| 0 <= i < b@.len() ==> is_visible_ascii(#[trigger] b@[i])) {
                    r == Err::<Signature, Error>(Error::InvalidUtf8)
                } else {
                    match hex_decoded(b@) {
                        None => r == Err::<Signature, Error>(Error::InvalidHexadecimal),
                        Some(d) => r matches Ok(s) && s@ == d,
                    }
                },
            },
    {
        let b = match value {
            None => return Err(Error::MissingHeader),
            Some(b) => b,
        };
        if !all_visible_ascii(b.as_slice()) {
            return Err(Error::InvalidUtf8);
        }
        match decode_hex(b.as_slice()) {
            None => Err(Error::InvalidHexadecimal),
            Some(d) => Ok(Signature(d)),
        }
    }

    /// The signature's bytes.
    pub fn as_bytes(&self) -> (r: &[u8])
        ensures
            r@ == self@,
    {
        self.0.as_slice()
    }
}

/// The raw body of a webhook delivery, exactly as received.
#[derive(Debug)]
pub struct PayloadBytes(Vec<u8>);

impl View for PayloadBytes {
    type V = Seq<u8>;

    closed spec fn view(&self) -> Seq<u8> {
        self.0@
    }
}

impl PayloadBytes {
    pub fn new(bytes: Vec<u8>) -> (r: PayloadBytes)
        ensures
            r@ == bytes@,
    {
        PayloadBytes(bytes)
    }

    /// The body's bytes.
    pub fn as_bytes(&self) -> (r: &[u8])
        ensures
            r@ == self@,
    {
        self.0.as_slice()
    }

    /// Whether `signature` is the HMAC-SHA256 of the body under `signing_key`.
    pub fn verify(&self, signature: &Signature, signing_key: &[u8]) -> (r: bool)
        ensures
            r == (signature@ == hmac_sha256(signing_key@, self@)),
    {
        verify_hmac_sha256(signing_key, self.0.as_slice(), signature.0.as_slice())
    }
}

} // verus!
