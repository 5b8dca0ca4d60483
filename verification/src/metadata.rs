//! The boundary to tonic's request metadata.
//!
//! Everything the verifier takes on trust about tonic stands in this file:
//! the outside types, the names for what they hold, and one contract for
//! each call that the request builder makes. The contracts follow the
//! sources of tonic and of http, the crate tonic keeps its metadata in.

use tonic::metadata::errors::InvalidMetadataValue;
use tonic::metadata::{AsciiMetadataValue, MetadataMap};
use vstd::prelude::*;
use vstd::utf8::encode_utf8;

verus! {

/// `tonic::metadata::MetadataMap`, the metadata that travels with a call.
/// The verifier sees nothing inside it; [`metadata_entries`] names what it
/// holds.
#[verifier::external_type_specification]
#[verifier::external_body]
pub struct ExMetadataMap(MetadataMap);

/// `tonic::metadata::errors::InvalidMetadataValue`, the error for a text
/// that tonic does not take as a metadata value. It carries no detail.
#[verifier::external_type_specification]
#[verifier::external_body]
pub struct ExInvalidMetadataValue(InvalidMetadataValue);

/// One `tonic::metadata::AsciiMetadataValue`: a metadata value that tonic
/// has accepted, on its way into a map.
///
/// tonic's `MetadataValue` is generic over an encoding trait that tonic does
/// not export, so the type itself cannot be declared to the verifier. This
/// struct carries one value through verified code instead;
/// [`ascii_value_bytes`] names what it holds.
#[verifier::external_body]
pub struct AsciiValue {
    inner: AsciiMetadataValue,
}

/// What a metadata map holds: the names that have an entry, and for each of
/// them the bytes of the first value stored under it.
pub uninterp spec fn metadata_entries(map: MetadataMap) -> Map<Seq<char>, Seq<u8>>;

/// The bytes that an accepted metadata value holds.
pub uninterp spec fn ascii_value_bytes(value: AsciiValue) -> Seq<u8>;

/// Whether http takes a byte in a header value: any byte but the control
/// bytes below 32 and the byte 127, the horizontal tab excepted.
pub open spec fn is_value_byte(byte: u8) -> bool {
    (byte >= 32 && byte != 127) || byte == 9
}

/// Whether http takes every byte of a sequence in a header value.
pub open spec fn are_value_bytes(bytes: Seq<u8>) -> bool {
    forall|i: int| 0 <= i < bytes.len() ==> is_value_byte(#[trigger] bytes[i])
}

/// A lower-case letter, a digit or a hyphen. Every such character may stand
/// in a metadata name.
pub open spec fn is_name_char(c: char) -> bool {
    ('a' <= c && c <= 'z') || ('0' <= c && c <= '9') || c == '-'
}

/// Whether a name ends in `-bin`, the ending tonic keeps for binary values.
pub open spec fn has_binary_suffix(name: Seq<char>) -> bool {
    name.len() >= 4 && name.subrange(name.len() - 4, name.len() as int) == seq!['-', 'b', 'i', 'n']
}

/// Names that tonic takes for a text value when they are given as a static
/// string: not empty, no longer than a header name may be, made of
/// characters that may stand in one, and not kept for binary values. tonic
/// takes some other names too; these are enough here.
pub open spec fn is_text_name(name: Seq<char>) -> bool {
    &&& 0 < name.len() <= 65535
    &&& forall|i: int| 0 <= i < name.len() ==> is_name_char(#[trigger] name[i])
    &&& !has_binary_suffix(name)
}

/// `MetadataMap::new` gives a map without entries.
pub assume_specification[ MetadataMap::new ]() -> (created: MetadataMap)
    ensures
        metadata_entries(created) == (Map::<Seq<char>, Seq<u8>>::empty()),
;

/// Parses a text as a metadata value, as `str::parse` does through tonic's
/// `FromStr` for `MetadataValue<Ascii>`.
///
/// tonic hands the text to `http::HeaderValue::from_str`, which goes through
/// the bytes of the text, refuses it if one of them is a control byte other
/// than the tab, and otherwise keeps a copy of the bytes. The bytes of a
/// `str` are the UTF-8 encoding of its characters.
#[verifier::external_body]
pub(crate) fn parse_ascii_value(text: &str) -> (parsed: Result<AsciiValue, InvalidMetadataValue>)
    ensures
        parsed is Ok <==> are_value_bytes(encode_utf8(text@)),
        parsed matches Ok(value) ==> ascii_value_bytes(value) == encode_utf8(text@),
{
    match text.parse::<AsciiMetadataValue>() {
        Ok(inner) => Ok(AsciiValue { inner }),
        Err(refused) => Err(refused),
    }
}

/// Stores a value under a name, as `MetadataMap::insert` does: the value
/// becomes the only one under that name, and the other entries stay.
///
/// The call panics on a static name that is no metadata name for text, and
/// when http's header map would have to grow beyond 32768 slots. The first
/// cannot happen for a name as [`is_text_name`] describes it. The second
/// cannot happen while the map holds fewer than 4096 names: the map asks for
/// more slots only once a fifth of them are taken.
#[verifier::external_body]
pub(crate) fn insert_ascii_value(map: &mut MetadataMap, name: &'static str, value: AsciiValue)
    requires
        is_text_name(name@),
        metadata_entries(*old(map)).dom().finite(),
        metadata_entries(*old(map)).dom().len() < 4096,
    ensures
        metadata_entries(*final(map)) == metadata_entries(*old(map)).insert(
            name@,
            ascii_value_bytes(value),
        ),
{
    map.insert(name, value.inner);
}

} // verus!
