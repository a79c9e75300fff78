//! Decoding of a device's `address` attribute file content.
//!
//! The kernel writes a device's MAC address as one line of text: the
//! colon-delimited hexadecimal string followed by a single trailing
//! newline. The surrounding glue reads the whole file into bytes and hands
//! them in; decoding drops the final byte (the newline) and interprets the
//! remainder as UTF-8 text. Empty content is decoded as the empty string
//! rather than underflowing. A further step parses the text into the six
//! raw MAC bytes.

use vstd::prelude::*;
use vstd::slice::slice_subrange;
use vstd::utf8::{decode_utf8, valid_utf8};
use crate::mac::{mac_bytes_of, parse_mac, strip_colons, valid_mac_text};

verus! {

/// Why an `address` attribute file's content yielded no MAC address.
#[derive(Debug, Clone, Copy, PartialEq, Eq)]
pub enum AddressError {
    /// The content, after dropping the trailing newline, is not valid
    /// UTF-8 text.
    Utf8,
    /// The text is not a parsable MAC address.
    Parse,
}

/// The file content with its final byte (the trailing newline) dropped;
/// empty content stays empty.
pub open spec fn trimmed_content(content: Seq<u8>) -> Seq<u8> {
    if content.len() == 0 {
        content
    } else {
        content.drop_last()
    }
}

/// Relies on std's `str::from_utf8`: it returns `Ok` exactly when the
/// bytes are valid UTF-8, and then the returned text reads the bytes'
/// decoding.
#[verifier::external_body]
fn utf8_text<'a>(v: &'a [u8]) -> (r: Option<&'a str>)
    ensures
        r is Some <==> valid_utf8(v@),
        r matches Some(s) ==> s@ == decode_utf8(v@),
{
    core::str::from_utf8(v).ok()
}

/// Decodes an `address` attribute file's content into the MAC address
/// text: the content minus its trailing newline, as UTF-8.
///
/// Succeeds exactly when the trimmed content is valid UTF-8, returning its
/// decoding; anything else is [`AddressError::Utf8`].
pub fn decode_address_content(content: &[u8]) -> (r: Result<String, AddressError>)
    ensures
        r is Ok <==> valid_utf8(trimmed_content(content@)),
        r matches Ok(s) ==> s@ == decode_utf8(trimmed_content(content@)),
        r is Err ==> r == Err::<String, AddressError>(AddressError::Utf8),
{
    let n = content.len();
    let trimmed: &[u8] = if n == 0 {
        content
    } else {
        slice_subrange(content, 0, n - 1)
    };
    proof {
        assert(trimmed@ =~= trimmed_content(content@));
    }
    match utf8_text(trimmed) {
        Some(s) => Ok(s.to_owned()),
        None => Err(AddressError::Utf8),
    }
}

/// Decodes an `address` attribute file's content and parses the text into
/// the six raw MAC bytes.
///
/// Succeeds exactly when the trimmed content is valid UTF-8 whose text is
/// a parsable MAC address; a text that is not valid UTF-8 is
/// [`AddressError::Utf8`], and a well-formed text that is not a MAC
/// address is [`AddressError::Parse`].
pub fn parse_address_content(content: &[u8]) -> (r: Result<Vec<u8>, AddressError>)
    ensures
        r is Ok <==> valid_utf8(trimmed_content(content@)) && valid_mac_text(
            decode_utf8(trimmed_content(content@)),
        ),
        r matches Ok(m) ==> m@ == mac_bytes_of(strip_colons(decode_utf8(trimmed_content(content@)))),
        !valid_utf8(trimmed_content(content@)) ==> r == Err::<Vec<u8>, AddressError>(
            AddressError::Utf8,
        ),
        valid_utf8(trimmed_content(content@)) && !valid_mac_text(
            decode_utf8(trimmed_content(content@)),
        ) ==> r == Err::<Vec<u8>, AddressError>(AddressError::Parse),
{
    match decode_address_content(content) {
        Ok(text) => match parse_mac(text.as_str()) {
            Ok(m) => Ok(m),
            Err(_) => Err(AddressError::Parse),
        },
        Err(e) => Err(e),
    }
}

} // verus!
