//! The keychain of macOS.
//!
//! A secret is a generic password whose service is the service name of the
//! host and whose account is empty. What the keychain holds is not the
//! secret itself: an older credential helper stored it wrapped, as a marker
//! followed by the secret in hexadecimal or in Base64.

use crate::codec::{
    base64_decode, base64_standard_decoding, decoded_view, hex_byte, hex_decode, hex_decoding,
    hex_digit, lemma_leading_hex_digits, Base64Error, HexError,
};
use crate::keyring::{secret_view, service_identifier, service_name};
use crate::text::bytes_start_with;
use vstd::prelude::*;
use vstd::slice::{slice_subrange, slice_to_vec};
use vstd::std_specs::convert::FromSpecImpl;
use vstd::string::StringSliceAdditionalSpecFns;

verus! {

/// The marker in front of a secret that is stored in hexadecimal.
pub const HEX_MARKER: &'static str = "go-keyring-encoded:";

/// The marker in front of a secret that is stored in standard Base64.
pub const BASE64_MARKER: &'static str = "go-keyring-base64:";

/// The status with which the keychain says that it holds no such item.
pub const ITEM_NOT_FOUND: i32 = -25300;

/// A failure of the keychain lookup or of unwrapping what it returned.
#[derive(Debug, Clone, Copy, PartialEq, Eq)]
pub enum Error {
    /// The keychain failed with this status.
    SecurityFramework(i32),
    /// The payload carries the hexadecimal marker, but what follows is no
    /// hexadecimal string.
    InvalidHex(HexError),
    /// The payload carries the Base64 marker, but what follows is no
    /// standard Base64.
    InvalidBase64(Base64Error),
    /// The payload carries neither marker.
    UnknownFormat,
}

impl From<HexError> for Error {
    fn from(e: HexError) -> (r: Error) {
        Error::InvalidHex(e)
    }
}

impl FromSpecImpl<HexError> for Error {
    open spec fn obeys_from_spec() -> bool {
        true
    }

    open spec fn from_spec(e: HexError) -> Error {
        Error::InvalidHex(e)
    }
}

impl From<Base64Error> for Error {
    fn from(e: Base64Error) -> (r: Error) {
        Error::InvalidBase64(e)
    }
}

impl FromSpecImpl<Base64Error> for Error {
    open spec fn obeys_from_spec() -> bool {
        true
    }

    open spec fn from_spec(e: Base64Error) -> Error {
        Error::InvalidBase64(e)
    }
}

/// A secret as the older credential helper stored it: the encoding that its
/// marker announced, and the bytes that followed the marker.
#[derive(Debug, Clone, PartialEq, Eq)]
pub enum GhEncodedToken {
    Hex(Vec<u8>),
    Base64(Vec<u8>),
}

/// The mathematical model of a `GhEncodedToken`.
pub enum EncodedToken {
    Hex(Seq<u8>),
    Base64(Seq<u8>),
}

impl View for GhEncodedToken {
    type V = EncodedToken;

    open spec fn view(&self) -> EncodedToken {
        match self {
            GhEncodedToken::Hex(s) => EncodedToken::Hex(s@),
            GhEncodedToken::Base64(s) => EncodedToken::Base64(s@),
        }
    }
}

/// The bytes of the hexadecimal marker.
pub open spec fn hex_marker() -> Seq<u8> {
    HEX_MARKER.spec_bytes()
}

/// The bytes of the Base64 marker.
pub open spec fn base64_marker() -> Seq<u8> {
    BASE64_MARKER.spec_bytes()
}

/// Which wrapper `payload` carries. The hexadecimal marker is tried first;
/// a payload with neither marker is not taken for a bare secret.
pub open spec fn detection(payload: Seq<u8>) -> Result<EncodedToken, Error> {
    if hex_marker().is_prefix_of(payload) {
        Ok(EncodedToken::Hex(payload.skip(hex_marker().len() as int)))
    } else if base64_marker().is_prefix_of(payload) {
        Ok(EncodedToken::Base64(payload.skip(base64_marker().len() as int)))
    } else {
        Err(Error::UnknownFormat)
    }
}

impl EncodedToken {
    /// The secret that the wrapper holds. A payload that does not decode in
    /// the encoding of its marker is not tried in the other one.
    pub open spec fn decoding(self) -> Result<Seq<u8>, Error> {
        match self {
            EncodedToken::Hex(s) => match hex_decoding(s) {
                Ok(secret) => Ok(secret),
                Err(e) => Err(Error::InvalidHex(e)),
            },
            EncodedToken::Base64(s) => match base64_standard_decoding(s) {
                Ok(secret) => Ok(secret),
                Err(e) => Err(Error::InvalidBase64(e)),
            },
        }
    }
}

/// The secret inside a payload of the keychain: detection, then decoding.
pub open spec fn legacy_decoding(payload: Seq<u8>) -> Result<Seq<u8>, Error> {
    match detection(payload) {
        Ok(token) => token.decoding(),
        Err(e) => Err(e),
    }
}

/// The view of a detection's result.
pub open spec fn detected_view(r: Result<GhEncodedToken, Error>) -> Result<EncodedToken, Error> {
    match r {
        Ok(token) => Ok(token@),
        Err(e) => Err(e),
    }
}

impl GhEncodedToken {
    /// Detects the wrapper of a payload by its marker and strips the marker.
    pub fn try_from(value: &[u8]) -> (r: Result<GhEncodedToken, Error>)
        ensures
            detected_view(r) == detection(value@),
    {
        let hex = HEX_MARKER.as_bytes();
        if bytes_start_with(value, hex) {
            let rest = slice_subrange(value, hex.len(), value.len());
            return Ok(GhEncodedToken::Hex(slice_to_vec(rest)));
        }
        let base64 = BASE64_MARKER.as_bytes();
        if bytes_start_with(value, base64) {
            let rest = slice_subrange(value, base64.len(), value.len());
            return Ok(GhEncodedToken::Base64(slice_to_vec(rest)));
        }
        Err(Error::UnknownFormat)
    }

    /// Decodes the secret in the encoding that the marker announced.
    pub fn decode(&self) -> (r: Result<Vec<u8>, Error>)
        ensures
            decoded_view(r) == self@.decoding(),
    {
        match self {
            GhEncodedToken::Hex(s) => match hex_decode(s.as_slice()) {
                Ok(secret) => Ok(secret),
                Err(e) => Err(Error::from(e)),
            },
            GhEncodedToken::Base64(s) => match base64_decode(s.as_slice()) {
                Ok(secret) => Ok(secret),
                Err(e) => Err(Error::from(e)),
            },
        }
    }
}

/// What came of looking up the generic password of a host.
#[derive(Debug, Clone, PartialEq, Eq)]
pub enum Answer {
    /// The default keychain of the user could not be had; the status of
    /// that failure.
    NoKeychain(i32),
    /// The keychain was searched, and the search failed with this status.
    Failed(i32),
    /// The payload of the generic password that was found.
    Found(Vec<u8>),
}

/// The mathematical model of an `Answer`.
pub enum AnswerView {
    NoKeychain(i32),
    Failed(i32),
    Found(Seq<u8>),
}

impl View for Answer {
    type V = AnswerView;

    open spec fn view(&self) -> AnswerView {
        match self {
            Answer::NoKeychain(status) => AnswerView::NoKeychain(*status),
            Answer::Failed(status) => AnswerView::Failed(*status),
            Answer::Found(payload) => AnswerView::Found(payload@),
        }
    }
}

/// The keychain as a store of secrets.
///
/// The lookup itself is the caller's: in the default keychain of the user,
/// a generic password with the service `service(host)` and the account
/// `ACCOUNT`. `interpret` then says what the keychain's answer means.
#[derive(Debug, Clone, Copy, PartialEq, Eq)]
pub struct Keychain;

impl Keychain {
    /// The account of the generic password: the empty string.
    pub const ACCOUNT: &'static str = "";

    /// What the answer of the keychain means. A search that fails with the
    /// status `ITEM_NOT_FOUND` says that nothing is stored; with any other
    /// status it is an error, as it is an error, whatever the status, to
    /// have no keychain to search. A payload holds the secret in a wrapper
    /// that has to come off.
    pub open spec fn interpretation(answer: AnswerView) -> Result<
        Option<Seq<u8>>,
        crate::keyring::Error,
    > {
        match answer {
            AnswerView::Found(payload) => match legacy_decoding(payload) {
                Ok(secret) => Ok(Some(secret)),
                Err(e) => Err(crate::keyring::Error::Macos(e)),
            },
            AnswerView::Failed(status) => if status == ITEM_NOT_FOUND {
                Ok(None)
            } else {
                Err(crate::keyring::Error::Macos(Error::SecurityFramework(status)))
            },
            AnswerView::NoKeychain(status) => Err(
                crate::keyring::Error::Macos(Error::SecurityFramework(status)),
            ),
        }
    }

    /// The service of the generic password that holds the secret of `host`.
    pub fn service(&self, host: &str) -> (r: String)
        ensures
            r@ == service_identifier(host@),
    {
        service_name(host)
    }

    /// Turns the answer of the keychain into the secret.
    pub fn interpret(&self, answer: Answer) -> (r: Result<Option<Vec<u8>>, crate::keyring::Error>)
        ensures
            secret_view(r) == Self::interpretation(answer@),
    {
        match answer {
            Answer::Found(payload) => {
                let token = match GhEncodedToken::try_from(payload.as_slice()) {
                    Ok(token) => token,
                    Err(e) => {
                        return Err(crate::keyring::Error::Macos(e));
                    },
                };
                match token.decode() {
                    Ok(secret) => Ok(Some(secret)),
                    Err(e) => Err(crate::keyring::Error::Macos(e)),
                }
            },
            Answer::Failed(status) => {
                if status == ITEM_NOT_FOUND {
                    Ok(None)
                } else {
                    Err(crate::keyring::Error::Macos(Error::SecurityFramework(status)))
                }
            },
            Answer::NoKeychain(status) => Err(
                crate::keyring::Error::Macos(Error::SecurityFramework(status)),
            ),
        }
    }
}

/// The two markers are ASCII strings of 19 and 18 bytes that part at their
/// twelfth byte.
pub proof fn lemma_markers()
    ensures
        hex_marker().len() == 19,
        base64_marker().len() == 18,
        hex_marker()[11] == 0x65,
        base64_marker()[11] == 0x62,
{
    reveal_strlit("go-keyring-encoded:");
    reveal_strlit("go-keyring-base64:");
    vstd::utf8::is_ascii_chars_encode_utf8(HEX_MARKER@);
    vstd::utf8::is_ascii_chars_encode_utf8(BASE64_MARKER@);
    assert(hex_marker()[11] == HEX_MARKER@[11] as u8);
    assert(base64_marker()[11] == BASE64_MARKER@[11] as u8);
}

/// No payload carries both markers, so the order in which they are tried
/// decides nothing.
pub proof fn lemma_markers_exclusive(payload: Seq<u8>)
    ensures
        !(hex_marker().is_prefix_of(payload) && base64_marker().is_prefix_of(payload)),
{
    lemma_markers();
    if hex_marker().is_prefix_of(payload) && base64_marker().is_prefix_of(payload) {
        assert(payload.subrange(0, 19)[11] == payload[11]);
        assert(payload.subrange(0, 18)[11] == payload[11]);
    }
}

/// A payload without a marker is refused as of unknown format: it is never
/// taken for the secret itself, and never for "nothing stored".
pub proof fn lemma_unmarked_payload(payload: Seq<u8>)
    requires
        !hex_marker().is_prefix_of(payload),
        !base64_marker().is_prefix_of(payload),
    ensures
        detection(payload) == Err::<EncodedToken, Error>(Error::UnknownFormat),
        legacy_decoding(payload) == Err::<Seq<u8>, Error>(Error::UnknownFormat),
        Keychain::interpretation(AnswerView::Found(payload)) == Err::<Option<Seq<u8>>, crate::keyring::Error>(
            crate::keyring::Error::Macos(Error::UnknownFormat),
        ),
{
}

/// A payload that is the hexadecimal marker followed by `digits` decodes
/// exactly when `digits` are hexadecimal digits in even number, and then
/// each pair of digits gives one byte of the secret. Anything else after
/// the marker is an `InvalidHex` error: the payload is not tried as Base64,
/// and the answer is never "nothing stored".
pub proof fn lemma_hex_payload(digits: Seq<u8>)
    ensures
        detection(hex_marker() + digits) == Ok::<EncodedToken, Error>(EncodedToken::Hex(digits)),
        digits.len() % 2 == 0 && (forall|i: int|
            0 <= i < digits.len() ==> hex_digit(#[trigger] digits[i]) is Some)
            ==> legacy_decoding(hex_marker() + digits) == Ok::<Seq<u8>, Error>(
            Seq::new(digits.len() / 2, |i: int| hex_byte(digits, i)),
        ),
        !(digits.len() % 2 == 0 && (forall|i: int|
            0 <= i < digits.len() ==> hex_digit(#[trigger] digits[i]) is Some)) ==> (
        legacy_decoding(hex_marker() + digits) matches Err(Error::InvalidHex(_))),
        Keychain::interpretation(AnswerView::Found(hex_marker() + digits)) != Ok::<
            Option<Seq<u8>>,
            crate::keyring::Error,
        >(None),
{
    let payload = hex_marker() + digits;
    assert(payload.subrange(0, hex_marker().len() as int) =~= hex_marker());
    assert(payload.skip(hex_marker().len() as int) =~= digits);
    lemma_leading_hex_digits(digits);
}

/// A payload that is the Base64 marker followed by `body` decodes as the
/// standard Base64 decoder decodes `body`, and where that decoder fails the
/// failure is an `InvalidBase64` error.
pub proof fn lemma_base64_payload(body: Seq<u8>)
    ensures
        detection(base64_marker() + body) == Ok::<EncodedToken, Error>(
            EncodedToken::Base64(body),
        ),
        legacy_decoding(base64_marker() + body) == match base64_standard_decoding(body) {
            Ok(secret) => Ok::<Seq<u8>, Error>(secret),
            Err(e) => Err(Error::InvalidBase64(e)),
        },
        Keychain::interpretation(AnswerView::Found(base64_marker() + body)) != Ok::<
            Option<Seq<u8>>,
            crate::keyring::Error,
        >(None),
{
    let payload = base64_marker() + body;
    assert(payload.subrange(0, base64_marker().len() as int) =~= base64_marker());
    assert(payload.skip(base64_marker().len() as int) =~= body);
    lemma_markers_exclusive(payload);
}

} // verus!
