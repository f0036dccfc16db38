//! Reading the caller's claimed address and signature from the request
//! headers.
//!
//! A caller authenticates with one header whose value is the text
//! `<address>:<signature>`, both halves in hexadecimal. Extraction only reads
//! the claim; whether the signature is the claimed address's is decided when
//! the request is authenticated.

use vstd::prelude::*;
use vstd::slice::slice_subrange;
use axum::http::HeaderMap;
use crate::error::Error;
use crate::hex::{
    encode_hex, has_hex_prefix, hex_digit, hex_digits, is_hex_of, lemma_decode_encode_hex,
};
use crate::primitives::{
    address_from_text, address_of_text, lemma_signature_round_trip, signature_from_text,
    signature_of_text, Address, Signature, SignatureView,
};

verus! {

/// The name of the header that carries the caller's address and signature.
pub const SIGNATURE_HEADER: &'static str = "x-bolt-signature";

/// The byte that separates the address from the signature.
pub const SEPARATOR: u8 = 0x3a;

/// The header values of a request, from `http`.
#[verifier::external_type_specification]
#[verifier::external_body]
#[verifier::reject_recursive_types(T)]
pub struct ExHeaderMap<T>(axum::http::HeaderMap<T>);

/// One header value, from `http`.
#[verifier::external_type_specification]
#[verifier::external_body]
pub struct ExHeaderValue(axum::http::HeaderValue);

/// What a set of headers holds: for every header name that occurs, in lower
/// case, the bytes of the first value stored under it.
pub uninterp spec fn header_values(headers: HeaderMap) -> Map<Seq<char>, Seq<u8>>;

/// Whether a header name is written in lower-case letters, digits and
/// hyphens alone, which is how header names are stored.
pub open spec fn is_plain_header_name(name: Seq<char>) -> bool {
    &&& name.len() > 0
    &&& forall|i: int|
        0 <= i < name.len() ==> {
            let c = #[trigger] name[i];
            ('a' <= c && c <= 'z') || ('0' <= c && c <= '9') || c == '-'
        }
}

/// Looks a header up with `http::HeaderMap::get`.
///
/// Trusted: for a name in lower case, the result is the first value stored
/// under that name, as bytes, and `None` where the name does not occur.
#[verifier::external_body]
pub(crate) fn header_value(headers: &HeaderMap, name: &str) -> (value: Option<Vec<u8>>)
    requires
        is_plain_header_name(name@),
    ensures
        match value {
            Some(v) => header_values(*headers).dom().contains(name@) && header_values(
                *headers,
            )[name@] == v@,
            None => !header_values(*headers).dom().contains(name@),
        },
{
    match headers.get(name) {
        Some(value) => Some(value.as_bytes().to_vec()),
        None => None,
    }
}

/// Whether a byte is visible ASCII: a printable character, a space or a tab.
pub open spec fn is_visible_ascii(b: u8) -> bool {
    (32 <= b && b < 127) || b == 9
}

/// Whether a header value is text: visible ASCII throughout.
pub open spec fn is_text(value: Seq<u8>) -> bool {
    forall|i: int| 0 <= i < value.len() ==> is_visible_ascii(#[trigger] value[i])
}

/// The index of the first separator at or after `from`, or the length of the
/// value where none follows.
pub open spec fn segment_end(value: Seq<u8>, from: int) -> int
    decreases value.len() - from,
{
    if from >= value.len() {
        value.len() as int
    } else if value[from] == SEPARATOR {
        from
    } else {
        segment_end(value, from + 1)
    }
}

/// The claim that a header value makes: the address before the first
/// separator and the signature between the first separator and the second,
/// or the end. `None` where the value is not text, has no separator, or one
/// of the two halves does not parse.
pub open spec fn auth_of_value(value: Seq<u8>) -> Option<(Seq<u8>, SignatureView)> {
    let first = segment_end(value, 0);
    let second = segment_end(value, first + 1);
    if !is_text(value) || first >= value.len() {
        None
    } else {
        match (
            address_of_text(value.subrange(0, first)),
            signature_of_text(value.subrange(first + 1, second)),
        ) {
            (Some(address), Some(signature)) => Some((address, signature)),
            _ => None,
        }
    }
}

/// What extraction owes for a set of headers: the claim of the signature
/// header, `NoSignature` where the header is absent, and `MalformedHeader`
/// where it is present and makes no claim.
pub open spec fn auth_of_headers(headers: HeaderMap) -> Result<(Seq<u8>, SignatureView), Error> {
    if !header_values(headers).dom().contains(SIGNATURE_HEADER@) {
        Err(Error::NoSignature)
    } else {
        match auth_of_value(header_values(headers)[SIGNATURE_HEADER@]) {
            Some(claim) => Ok(claim),
            None => Err(Error::MalformedHeader),
        }
    }
}

/// Finds the end of the segment that starts at `from`.
fn find_segment_end(value: &[u8], from: usize) -> (end: usize)
    requires
        from <= value@.len(),
    ensures
        end == segment_end(value@, from as int),
        from <= end <= value@.len(),
{
    let mut i: usize = from;
    while i < value.len() && value[i] != SEPARATOR
        invariant
            from <= i <= value@.len(),
            segment_end(value@, from as int) == segment_end(value@, i as int),
        decreases value@.len() - i,
    {
        i = i + 1;
    }
    i
}

/// Tells whether a header value is text.
fn check_text(value: &[u8]) -> (text: bool)
    ensures
        text == is_text(value@),
{
    let mut i: usize = 0;
    while i < value.len()
        invariant
            i <= value@.len(),
            forall|j: int| 0 <= j < i ==> is_visible_ascii(#[trigger] value@[j]),
        decreases value@.len() - i,
    {
        let b = value[i];
        if !((32 <= b && b < 127) || b == 9) {
            return false;
        }
        i = i + 1;
    }
    true
}

/// Reads the claim of one header value.
///
/// The value must be text of the form `<address>:<signature>`. Whatever
/// follows a second separator is not read.
pub fn parse_auth_value(value: &[u8]) -> (result: Result<(Address, Signature), Error>)
    ensures
        match result {
            Ok((address, signature)) => auth_of_value(value@) == Some((address@, signature@)),
            Err(e) => auth_of_value(value@) is None && e == Error::MalformedHeader,
        },
{
    if !check_text(value) {
        return Err(Error::MalformedHeader);
    }
    let first = find_segment_end(value, 0);
    if first >= value.len() {
        return Err(Error::MalformedHeader);
    }
    let address = match address_from_text(slice_subrange(value, 0, first)) {
        Some(address) => address,
        None => {
            return Err(Error::MalformedHeader);
        },
    };
    let second = find_segment_end(value, first + 1);
    match signature_from_text(slice_subrange(value, first + 1, second)) {
        Some(signature) => Ok((address, signature)),
        None => Err(Error::MalformedHeader),
    }
}

/// Extracts the caller's claimed address and signature from the headers.
///
/// Fails with `NoSignature` where the signature header is absent and with
/// `MalformedHeader` where it is present but is not text, has no separator,
/// or holds a half that does not parse.
pub fn auth_from_headers(headers: &HeaderMap) -> (result: Result<(Address, Signature), Error>)
    ensures
        match result {
            Ok((address, signature)) => auth_of_headers(*headers) == Ok::<
                (Seq<u8>, SignatureView),
                Error,
            >((address@, signature@)),
            Err(e) => auth_of_headers(*headers) == Err::<(Seq<u8>, SignatureView), Error>(e),
        },
{
    proof {
        reveal_strlit("x-bolt-signature");
    }
    match header_value(headers, SIGNATURE_HEADER) {
        None => Err(Error::NoSignature),
        Some(value) => parse_auth_value(value.as_slice()),
    }
}

/// The first separator at or after `from` is at `end` where no byte before
/// `end` is a separator and `end` is one or the end of the value.
proof fn lemma_segment_end(value: Seq<u8>, from: int, end: int)
    requires
        0 <= from <= end <= value.len(),
        forall|i: int| from <= i < end ==> value[i] != SEPARATOR,
        end == value.len() || value[end] == SEPARATOR,
    ensures
        segment_end(value, from) == end,
    decreases end - from,
{
    if from < end {
        lemma_segment_end(value, from + 1, end);
    }
}

/// A text that denotes bytes in hexadecimal is visible ASCII and holds no
/// separator.
proof fn lemma_hex_text_is_plain(text: Seq<u8>, n: nat)
    requires
        is_hex_of(text, n),
    ensures
        is_text(text),
        forall|i: int| 0 <= i < text.len() ==> text[i] != SEPARATOR,
{
    let digits = hex_digits(text);
    assert forall|i: int| 0 <= i < text.len() implies is_visible_ascii(#[trigger] text[i])
        && text[i] != SEPARATOR by {
        if has_hex_prefix(text) {
            if i >= 2 {
                assert(hex_digit(digits[i - 2]) is Some);
            }
        } else {
            assert(hex_digit(digits[i]) is Some);
        }
    }
}

/// A header of the form `<address>:<signature>` is read as exactly that
/// address and that signature, whatever the two texts are, as long as the
/// first denotes an address and the second a signature.
pub proof fn lemma_well_formed_header(address_text: Seq<u8>, signature_text: Seq<u8>)
    requires
        address_of_text(address_text) is Some,
        signature_of_text(signature_text) is Some,
    ensures
        auth_of_value(address_text + seq![SEPARATOR] + signature_text) == Some(
            (address_of_text(address_text).unwrap(), signature_of_text(signature_text).unwrap()),
        ),
{
    let value = address_text + seq![SEPARATOR] + signature_text;
    let first = address_text.len() as int;
    lemma_hex_text_is_plain(address_text, 20);
    lemma_hex_text_is_plain(signature_text, 65);
    assert forall|i: int| 0 <= i < value.len() implies is_visible_ascii(#[trigger] value[i]) by {
        if i < first {
            assert(value[i] == address_text[i]);
        } else if i > first {
            assert(value[i] == signature_text[i - first - 1]);
        }
    }
    assert forall|i: int| 0 <= i < first implies value[i] != SEPARATOR by {
        assert(value[i] == address_text[i]);
    }
    assert forall|i: int| first + 1 <= i < value.len() implies value[i] != SEPARATOR by {
        assert(value[i] == signature_text[i - first - 1]);
    }
    lemma_segment_end(value, 0, first);
    lemma_segment_end(value, first + 1, value.len() as int);
    assert(value.subrange(0, first) =~= address_text);
    assert(value.subrange(first + 1, value.len() as int) =~= signature_text);
}

/// A header value without a separator makes no claim, so that extraction
/// fails on it as `MalformedHeader`.
pub proof fn lemma_header_without_separator(value: Seq<u8>)
    requires
        forall|i: int| 0 <= i < value.len() ==> value[i] != SEPARATOR,
    ensures
        auth_of_value(value) is None,
{
    lemma_segment_end(value, 0, value.len() as int);
}

/// The header that a caller writes for an address and a signature, both in
/// lower-case hexadecimal with a `0x` prefix and the signature as its raw
/// bytes, is read as exactly that address and that signature.
pub proof fn lemma_written_header(address: Seq<u8>, signature: SignatureView)
    requires
        address.len() == 20,
        signature.r.len() == 32,
        signature.s.len() == 32,
    ensures
        auth_of_value(encode_hex(address) + seq![SEPARATOR] + encode_hex(signature.raw())) == Some(
            (address, signature),
        ),
{
    lemma_decode_encode_hex(address);
    lemma_signature_round_trip(signature);
    lemma_well_formed_header(encode_hex(address), encode_hex(signature.raw()));
}

} // verus!
