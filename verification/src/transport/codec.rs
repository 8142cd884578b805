//! The two outside codecs of the serial framing: base64 and CRC-16/XMODEM.
//!
//! Neither algorithm is written out here. Each result has a name, and the
//! contracts below say of the names only what the framing needs.

use vstd::prelude::*;
use base64::Engine;

verus! {

/// The standard base64 text (with padding) of `data`.
pub uninterp spec fn base64_text(data: Seq<u8>) -> Seq<u8>;

/// The bytes that `text` stands for in standard base64, if it is well formed.
pub uninterp spec fn base64_data(text: Seq<u8>) -> Option<Seq<u8>>;

/// The CRC-16/XMODEM checksum of `data`.
pub uninterp spec fn crc16_xmodem(data: Seq<u8>) -> u16;

/// A byte of the standard base64 alphabet, or the padding sign.
pub open spec fn is_base64_byte(b: u8) -> bool {
    ||| 0x41 <= b <= 0x5A
    ||| 0x61 <= b <= 0x7A
    ||| 0x30 <= b <= 0x39
    ||| b == 0x2B
    ||| b == 0x2F
    ||| b == 0x3D
}

/// Number of base64 characters for `n` bytes: four for every three, rounded up.
pub open spec fn base64_len(n: int) -> int {
    4 * ((n + 2) / 3)
}

/// `base64::DecodeError`: why the outside decoder refused a text. It is
/// handed through unread.
#[verifier::external_type_specification]
#[verifier::external_body]
pub struct ExBase64DecodeError(base64::DecodeError);

/// `base64::Engine::encode` of the standard engine.
///
/// Claims of the outside encoder: its output is the text named
/// [`base64_text`]; it has four characters for every three input bytes,
/// rounded up; it holds only bytes of the alphabet and the padding sign; and
/// the standard decoder reads it back as the input.
#[verifier::external_body]
pub(crate) fn base64_encode(data: &[u8]) -> (text: Vec<u8>)
    ensures
        text@ == base64_text(data@),
        text@.len() == base64_len(data@.len() as int),
        forall|i: int| 0 <= i < text@.len() ==> is_base64_byte(#[trigger] text@[i]),
        base64_data(text@) == Some(data@),
{
    base64::prelude::BASE64_STANDARD.encode(data).into_bytes()
}

/// `base64::Engine::decode` of the standard engine.
///
/// Claims of the outside decoder only that its answer is a function of the
/// text: the bytes named [`base64_data`], or an error where that is `None`.
#[verifier::external_body]
pub(crate) fn base64_decode(text: &[u8]) -> (r: Result<Vec<u8>, base64::DecodeError>)
    ensures
        match r {
            Ok(data) => base64_data(text@) == Some(data@),
            Err(_) => base64_data(text@) is None,
        },
{
    base64::prelude::BASE64_STANDARD.decode(text)
}

/// `crc::Crc::<u16>::checksum` with the `CRC_16_XMODEM` algorithm.
///
/// Claims of the outside function only that its result is a function of the
/// bytes, named [`crc16_xmodem`].
#[verifier::external_body]
pub(crate) fn crc16(data: &[u8]) -> (sum: u16)
    ensures
        sum == crc16_xmodem(data@),
{
    crc::Crc::<u16>::new(&crc::CRC_16_XMODEM).checksum(data)
}

} // verus!
