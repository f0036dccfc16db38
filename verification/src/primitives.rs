//! Addresses, signatures and digests as plain bytes, and the cryptography
//! that the library takes from `alloy`.

use vstd::prelude::*;
use crate::hex::{decode_hex, encode_hex, lemma_decode_encode_hex};

verus! {

/// A twenty-byte account address.
#[derive(Debug, Clone, Copy, PartialEq, Eq, Hash)]
pub struct Address {
    /// The bytes of the address, first byte first.
    pub bytes: [u8; 20],
}

impl View for Address {
    type V = Seq<u8>;

    open spec fn view(&self) -> Seq<u8> {
        self.bytes@
    }
}

impl Address {
    /// Makes an address of its twenty bytes.
    pub fn new(bytes: [u8; 20]) -> (address: Address)
        ensures
            address@ == bytes@,
    {
        Address { bytes }
    }

    /// Tells whether two addresses hold the same bytes.
    pub fn same_as(&self, other: &Address) -> (same: bool)
        ensures
            same == (self@ == other@),
    {
        let mut i: usize = 0;
        while i < 20
            invariant
                i <= 20,
                forall|j: int| 0 <= j < i ==> self.bytes@[j] == other.bytes@[j],
            decreases 20 - i,
        {
            if self.bytes[i] != other.bytes[i] {
                return false;
            }
            i = i + 1;
        }
        assert(self.bytes@ =~= other.bytes@);
        true
    }
}

/// An ECDSA signature over secp256k1 with its recovery parity.
#[derive(Debug, Clone, Copy, PartialEq, Eq)]
pub struct Signature {
    /// The scalar `r`, big-endian.
    pub r: [u8; 32],
    /// The scalar `s`, big-endian.
    pub s: [u8; 32],
    /// Whether the y coordinate of the recovered point is odd.
    pub y_parity: bool,
}

/// A signature as mathematics: its two scalars and its parity.
pub struct SignatureView {
    /// The thirty-two bytes of `r`.
    pub r: Seq<u8>,
    /// The thirty-two bytes of `s`.
    pub s: Seq<u8>,
    /// Whether the y coordinate of the recovered point is odd.
    pub y_parity: bool,
}

impl View for Signature {
    type V = SignatureView;

    open spec fn view(&self) -> SignatureView {
        SignatureView { r: self.r@, s: self.s@, y_parity: self.y_parity }
    }
}

impl SignatureView {
    /// The sixty-five raw bytes of a signature: `r`, then `s`, then `27`
    /// for an even parity and `28` for an odd one.
    pub open spec fn raw(self) -> Seq<u8> {
        self.r + self.s + seq![if self.y_parity { 28u8 } else { 27u8 }]
    }
}

impl Signature {
    /// Makes a signature of its scalars and its parity.
    pub fn new(r: [u8; 32], s: [u8; 32], y_parity: bool) -> (signature: Signature)
        ensures
            signature@ == (SignatureView { r: r@, s: s@, y_parity }),
    {
        Signature { r, s, y_parity }
    }

    /// Returns the sixty-five raw bytes of the signature.
    pub fn to_raw(&self) -> (raw: Vec<u8>)
        ensures
            raw@ == self@.raw(),
    {
        let mut raw: Vec<u8> = Vec::new();
        append_bytes(&mut raw, self.r.as_slice());
        append_bytes(&mut raw, self.s.as_slice());
        raw.push(if self.y_parity { 28 } else { 27 });
        raw
    }
}

/// Appends bytes to a buffer.
pub(crate) fn append_bytes(buffer: &mut Vec<u8>, bytes: &[u8])
    ensures
        final(buffer)@ == old(buffer)@ + bytes@,
{
    let mut i: usize = 0;
    while i < bytes.len()
        invariant
            i <= bytes@.len(),
            buffer@ == old(buffer)@ + bytes@.take(i as int),
        decreases bytes@.len() - i,
    {
        buffer.push(bytes[i]);
        i = i + 1;
    }
}

/// The parity that the last byte of a raw signature stands for: `0` and `1`
/// as they are, `27` and `28` as even and odd, and from `35` on the odd
/// values as even and the even values as odd. Other values stand for none.
pub open spec fn parity_of_v(v: u8) -> Option<bool> {
    if v == 0 || v == 27 {
        Some(false)
    } else if v == 1 || v == 28 {
        Some(true)
    } else if v >= 35 {
        Some(v % 2 == 0)
    } else {
        None
    }
}

/// The address that a hexadecimal text denotes.
pub open spec fn address_of_text(text: Seq<u8>) -> Option<Seq<u8>> {
    decode_hex(text, 20)
}

/// The signature that a hexadecimal text denotes: sixty-five bytes, which
/// are `r`, `s` and a last byte that stands for the parity.
pub open spec fn signature_of_text(text: Seq<u8>) -> Option<SignatureView> {
    match decode_hex(text, 65) {
        Some(raw) => match parity_of_v(raw[64]) {
            Some(y_parity) => Some(
                SignatureView { r: raw.subrange(0, 32), s: raw.subrange(32, 64), y_parity },
            ),
            None => None,
        },
        None => None,
    }
}

/// A signature is read back from its raw bytes written in hexadecimal.
pub proof fn lemma_signature_round_trip(signature: SignatureView)
    requires
        signature.r.len() == 32,
        signature.s.len() == 32,
    ensures
        signature_of_text(encode_hex(signature.raw())) == Some(signature),
{
    let raw = signature.raw();
    lemma_decode_encode_hex(raw);
    assert(raw.subrange(0, 32) =~= signature.r);
    assert(raw.subrange(32, 64) =~= signature.s);
}

/// Parses an address with `alloy::primitives::Address::from_str`.
///
/// Trusted: the text is accepted exactly when it denotes twenty bytes in
/// hexadecimal, with or without a `0x` prefix and in either case, and those
/// bytes are the address.
#[verifier::external_body]
pub(crate) fn address_from_text(text: &[u8]) -> (address: Option<Address>)
    ensures
        match address {
            Some(a) => address_of_text(text@) == Some(a@),
            None => address_of_text(text@) is None,
        },
{
    let text = core::str::from_utf8(text).ok()?;
    let parsed = <alloy::primitives::Address as core::str::FromStr>::from_str(text).ok()?;
    Some(Address { bytes: parsed.into_array() })
}

/// Parses a signature with `alloy::primitives::Signature::from_str`.
///
/// Trusted: the text is accepted exactly when it denotes sixty-five bytes in
/// hexadecimal whose last byte stands for a parity; the first thirty-two
/// bytes are `r` and the next thirty-two are `s`.
#[verifier::external_body]
pub(crate) fn signature_from_text(text: &[u8]) -> (signature: Option<Signature>)
    ensures
        match signature {
            Some(s) => signature_of_text(text@) == Some(s@),
            None => signature_of_text(text@) is None,
        },
{
    let text = core::str::from_utf8(text).ok()?;
    let parsed = <alloy::primitives::Signature as core::str::FromStr>::from_str(text).ok()?;
    Some(Signature { r: parsed.r().to_be_bytes(), s: parsed.s().to_be_bytes(), y_parity: parsed.v() })
}

/// The address whose key made a signature over a digest, where there is one.
/// It stands for the result of ECDSA public-key recovery on secp256k1
/// followed by the derivation of the account address.
pub uninterp spec fn recovered_address(
    r: Seq<u8>,
    s: Seq<u8>,
    y_parity: bool,
    digest: Seq<u8>,
) -> Option<Seq<u8>>;

/// Recovers the signer of a digest with
/// `alloy::primitives::Signature::recover_address_from_prehash`.
///
/// Trusted: the result is a function of the signature and the digest alone,
/// named `recovered_address`.
#[verifier::external_body]
pub(crate) fn recover_address(signature: &Signature, digest: &[u8; 32]) -> (signer: Option<Address>)
    ensures
        match signer {
            Some(a) => recovered_address(signature.r@, signature.s@, signature.y_parity, digest@)
                == Some(a@),
            None => recovered_address(signature.r@, signature.s@, signature.y_parity, digest@)
                is None,
        },
{
    let outside = alloy::primitives::Signature::from_scalars_and_parity(
        alloy::primitives::B256::from(signature.r),
        alloy::primitives::B256::from(signature.s),
        signature.y_parity,
    );
    match outside.recover_address_from_prehash(&alloy::primitives::B256::from(*digest)) {
        Ok(signer) => Some(Address { bytes: signer.into_array() }),
        Err(_) => None,
    }
}

/// The Keccak-256 hash of some bytes.
pub uninterp spec fn keccak256_of(data: Seq<u8>) -> Seq<u8>;

/// Hashes bytes with `alloy::primitives::keccak256`.
///
/// Trusted: the result is a function of the bytes alone, named `keccak256_of`.
#[verifier::external_body]
pub(crate) fn keccak256(data: &[u8]) -> (hash: [u8; 32])
    ensures
        hash@ == keccak256_of(data@),
{
    alloy::primitives::keccak256(data).0
}

} // verus!
