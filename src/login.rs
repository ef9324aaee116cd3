use hmac::Mac;
use vstd::prelude::*;

verus! {

/// The key that signs the error message handed to the login page.
pub struct HmacSecret(pub String);

/// The query of a redirect to the login page: an error message and the
/// hex-encoded HMAC-SHA256 tag of `error=<url-encoded message>`.
#[derive(Debug, Clone)]
pub struct QueryParams {
    pub error: String,
    pub tag: String,
}

/// Why the query of the login page was not accepted.
#[derive(Clone, Copy, Debug, PartialEq, Eq, Structural)]
pub enum TagError {
    /// The tag is not an even number of hex digits.
    MalformedTag,
    /// The tag does not match the message under the secret.
    BadSignature,
}

/// What percent-encoding turns `s` into: its UTF-8 bytes, each letter, digit,
/// `-`, `_`, `.` and `~` kept and every other byte written `%XX`.
pub uninterp spec fn url_encoded(s: Seq<char>) -> Seq<char>;

/// The HMAC-SHA256 tag of the UTF-8 bytes of `message` under the UTF-8 bytes
/// of `key`.
pub uninterp spec fn hmac_sha256_of(key: Seq<char>, message: Seq<char>) -> Seq<u8>;

pub open spec fn is_hex_digit(c: char) -> bool {
    ('0' <= c && c <= '9') || ('a' <= c && c <= 'f') || ('A' <= c && c <= 'F')
}

pub open spec fn hex_value(c: char) -> int {
    if '0' <= c && c <= '9' {
        c as int - '0' as int
    } else if 'a' <= c && c <= 'f' {
        c as int - 'a' as int + 10
    } else {
        c as int - 'A' as int + 10
    }
}

/// An even number of hex digits, of either case.
pub open spec fn is_hex_text(s: Seq<char>) -> bool {
    s.len() % 2 == 0 && forall|i: int| 0 <= i < s.len() ==> is_hex_digit(#[trigger] s[i])
}

/// The bytes that a hex text spells, two digits each, high digit first.
pub open spec fn hex_bytes(s: Seq<char>) -> Seq<u8> {
    Seq::new((s.len() / 2) as nat, |i: int| (hex_value(s[2 * i]) * 16 + hex_value(s[2 * i + 1])) as u8)
}

/// Relies on `hex::decode`: an even number of hex digits, of either case,
/// decodes two digits to a byte; anything else is an error.
#[verifier::external_body]
fn decode_hex(s: &str) -> (r: Option<Vec<u8>>)
    ensures
        r is Some <==> is_hex_text(s@),
        r is Some ==> r->Some_0@ == hex_bytes(s@),
{
    hex::decode(s).ok()
}

/// Relies on `urlencoding::Encoded`, written out with `format!`.
#[verifier::external_body]
fn url_encode(s: &str) -> (r: String)
    ensures
        r@ == url_encoded(s@),
{
    format!("{}", urlencoding::Encoded::new(s))
}

/// Relies on hmac's `Hmac::<Sha256>`: `new_from_slice` (which takes a key of
/// any length), `update` with the message, and `verify_slice`, which accepts
/// exactly the tag that the MAC computes.
#[verifier::external_body]
fn hmac_sha256_matches(key: &str, message: &str, tag: &[u8]) -> (r: bool)
    ensures
        r == (tag@ == hmac_sha256_of(key@, message@)),
{
    let mut mac = hmac::Hmac::<sha2::Sha256>::new_from_slice(key.as_bytes())
        .expect("HMAC takes a key of any length");
    mac.update(message.as_bytes());
    mac.verify_slice(tag).is_ok()
}

/// The signed query text for an already url-encoded error message.
pub fn error_query_string(encoded_error: &str) -> (r: String)
    ensures
        r@ == "error="@ + encoded_error@,
{
    String::from_str("error=").concat(encoded_error)
}

/// Whether `tag` spells, in hex, the HMAC-SHA256 under `secret` of `error=`
/// followed by the url-encoded `error`.
pub open spec fn tag_is_valid(secret: Seq<char>, error: Seq<char>, tag: Seq<char>) -> bool {
    is_hex_text(tag) && hex_bytes(tag) == hmac_sha256_of(secret, "error="@ + url_encoded(error))
}

impl QueryParams {
    /// Hands back the error message when its tag is the HMAC-SHA256, under
    /// the secret, of `error=` followed by the url-encoded message.
    pub fn verify(self, secret: &HmacSecret) -> (r: Result<String, TagError>)
        ensures
            r is Ok <==> tag_is_valid(secret.0@, self.error@, self.tag@),
            r is Ok ==> r->Ok_0@ == self.error@,
            r == Err::<String, TagError>(TagError::MalformedTag) <==> !is_hex_text(self.tag@),
            r == Err::<String, TagError>(TagError::BadSignature) <==> is_hex_text(self.tag@)
                && !tag_is_valid(secret.0@, self.error@, self.tag@),
    {
        let tag = match decode_hex(self.tag.as_str()) {
            Some(t) => t,
            None => return Err(TagError::MalformedTag),
        };
        let query_string = error_query_string(url_encode(self.error.as_str()).as_str());
        if hmac_sha256_matches(secret.0.as_str(), query_string.as_str(), tag.as_slice()) {
            Ok(self.error)
        } else {
            Err(TagError::BadSignature)
        }
    }
}

} // verus!
