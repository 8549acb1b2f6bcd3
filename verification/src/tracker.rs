//! Tracking tokens and the beacon that carries them.
//!
//! A token is the unpadded URL-safe base64 of the recipient's address. It
//! is an encoding, not a hash: the dashboard decodes it to show the address.

use vstd::prelude::*;
use vstd::string::*;
use vstd::utf8::{decode_utf8, encode_utf8, valid_utf8};
use base64::Engine;
use base64::engine::general_purpose::URL_SAFE_NO_PAD;

verus! {

/// The unpadded URL-safe base64 text of `data`.
pub uninterp spec fn base64url(data: Seq<u8>) -> Seq<char>;

/// The bytes that `text` stands for as unpadded URL-safe base64, if it is
/// such an encoding.
pub uninterp spec fn base64url_decoded(text: Seq<u8>) -> Option<Seq<u8>>;

/// The text that `bytes` decode to as UTF-8, with U+FFFD in place of what
/// is not UTF-8.
pub uninterp spec fn lossy_text(bytes: Seq<u8>) -> Seq<char>;

/// Whether `c` belongs to the URL-safe base64 alphabet: the letters and
/// digits of ASCII, `-` and `_`.
pub open spec fn is_url_safe(c: char) -> bool {
    ('A' <= c && c <= 'Z') || ('a' <= c && c <= 'z') || ('0' <= c && c <= '9') || c == '-' || c
        == '_'
}

/// Whether every character of `text` belongs to the URL-safe base64
/// alphabet.
pub open spec fn is_url_safe_text(text: Seq<char>) -> bool {
    forall|i: int| 0 <= i < text.len() ==> is_url_safe(#[trigger] text[i])
}

/// `URL_SAFE_NO_PAD.encode` of the `base64` crate. Not proved: that the
/// text is a function of the bytes, and that it is written in the
/// URL-safe alphabet.
#[verifier::external_body]
fn encode_base64url(data: &[u8]) -> (text: String)
    ensures
        text@ == base64url(data@),
        is_url_safe_text(text@),
{
    URL_SAFE_NO_PAD.encode(data)
}

/// `URL_SAFE_NO_PAD.decode` of the `base64` crate, `None` for its error.
/// Not proved: that the outcome is a function of the text, and that
/// decoding undoes encoding.
#[verifier::external_body]
fn decode_base64url(text: &[u8]) -> (data: Option<Vec<u8>>)
    ensures
        match data {
            Some(bytes) => base64url_decoded(text@) == Some(bytes@),
            None => base64url_decoded(text@) is None,
        },
        forall|plain: Seq<u8>| text@ == encode_utf8(#[trigger] base64url(plain)) ==> data
            is Some && data->0@ == plain,
{
    URL_SAFE_NO_PAD.decode(text).ok()
}

/// `String::from_utf8_lossy`: the text of the bytes, which is their UTF-8
/// decoding where they are valid UTF-8.
#[verifier::external_body]
fn utf8_lossy(bytes: &[u8]) -> (text: String)
    ensures
        text@ == lossy_text(bytes@),
        valid_utf8(bytes@) ==> text@ == decode_utf8(bytes@),
{
    String::from_utf8_lossy(bytes).into_owned()
}

/// The token of an address.
pub open spec fn token_of(address: Seq<char>) -> Seq<char> {
    base64url(encode_utf8(address))
}

/// What a token is shown as: the text it decodes to, or the token itself
/// where it is not base64.
pub open spec fn recipient_of(token: Seq<char>) -> Seq<char> {
    match base64url_decoded(encode_utf8(token)) {
        Some(bytes) => lossy_text(bytes),
        None => token,
    }
}

/// The beacon: an invisible image of one pixel, fetched from
/// `<base_url>/pixel.png?id=<token>`.
pub open spec fn beacon(base_url: Seq<char>, token: Seq<char>) -> Seq<char> {
    "<img src=\""@ + base_url + "/pixel.png?id="@ + token
        + "\" alt=\"\" width=\"1\" height=\"1\" border=\"0\" style=\"width:1px;height:1px;opacity:0.01;\" />"@
}

/// The tracking token of a recipient: the same address always gives the
/// same token, and the token can stand in an address as it is.
pub fn tracking_token(recipient_email: &str) -> (token: String)
    ensures
        token@ == token_of(recipient_email@),
        is_url_safe_text(token@),
{
    encode_base64url(recipient_email.as_bytes())
}

/// Decodes a token back to the address it was made from. A token that is
/// not base64 is returned as it is.
pub fn decode_recipient(token: &str) -> (address: String)
    ensures
        address@ == recipient_of(token@),
        forall|plain: Seq<char>| token@ == #[trigger] token_of(plain) ==> address@
            == plain,
{
    let decoded = decode_base64url(token.as_bytes());
    proof {
        assert forall|plain: Seq<char>| token@ == #[trigger] token_of(plain) implies (
        decoded is Some && decoded->0@ == encode_utf8(plain)) by {
            assert(token.spec_bytes() == encode_utf8(base64url(encode_utf8(plain))));
        }
    }
    match decoded {
        Some(bytes) => {
            let address = utf8_lossy(bytes.as_slice());
            proof {
                assert forall|plain: Seq<char>| token@ == #[trigger] token_of(
                    plain,
                ) implies address@ == plain by {
                    vstd::utf8::encode_utf8_valid_utf8(plain);
                    vstd::utf8::encode_utf8_decode_utf8(plain);
                }
            }
            address
        },
        None => token.to_owned(),
    }
}

/// The text that a token decodes to, and nothing where it is not base64.
pub open spec fn token_text_or_empty(token: Seq<char>) -> Seq<char> {
    match base64url_decoded(encode_utf8(token)) {
        Some(bytes) => lossy_text(bytes),
        None => Seq::empty(),
    }
}

/// Decodes a token for a hint: a token that is not base64 gives no text.
pub fn decode_token_or_empty(token: &str) -> (address: String)
    ensures
        address@ == token_text_or_empty(token@),
{
    match decode_base64url(token.as_bytes()) {
        Some(bytes) => utf8_lossy(bytes.as_slice()),
        None => String::new(),
    }
}

/// Renders the beacon for a token.
pub fn beacon_markup(base_url: &str, token: &str) -> (markup: String)
    ensures
        markup@ == beacon(base_url@, token@),
{
    let mut out = String::from_str("<img src=\"");
    out.append(base_url);
    out.append("/pixel.png?id=");
    out.append(token);
    out.append(
        "\" alt=\"\" width=\"1\" height=\"1\" border=\"0\" style=\"width:1px;height:1px;opacity:0.01;\" />",
    );
    out
}

/// Renders the beacon that reports openings by `recipient_email` to the
/// service at `base_url`.
pub fn generate_tracker(base_url: &str, recipient_email: &str) -> (markup: String)
    ensures
        markup@ == beacon(base_url@, token_of(recipient_email@)),
{
    let token = tracking_token(recipient_email);
    beacon_markup(base_url, token.as_str())
}

/// Two recipients with the same address have the same token.
pub proof fn lemma_token_is_deterministic(first: Seq<char>, second: Seq<char>)
    requires
        first == second,
    ensures
        token_of(first) == token_of(second),
{
}

} // verus!
