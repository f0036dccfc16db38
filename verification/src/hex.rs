//! What a hexadecimal text stands for.
//!
//! Addresses and signatures travel as hexadecimal text. This module says, as
//! mathematics, which bytes such a text denotes; the parsers of
//! [`crate::primitives`] are specified against it.

use vstd::prelude::*;

verus! {

/// The value of a hexadecimal digit, in either case; `None` for any other byte.
pub open spec fn hex_digit(b: u8) -> Option<int> {
    if 0x30 <= b <= 0x39 {
        Some(b - 0x30)
    } else if 0x61 <= b <= 0x66 {
        Some(b - 0x61 + 10)
    } else if 0x41 <= b <= 0x46 {
        Some(b - 0x41 + 10)
    } else {
        None
    }
}

/// Whether a text begins with `0x` or `0X`.
pub open spec fn has_hex_prefix(text: Seq<u8>) -> bool {
    text.len() >= 2 && text[0] == 0x30 && (text[1] == 0x78 || text[1] == 0x58)
}

/// The digits of a text: the text without its `0x` prefix, if it has one.
pub open spec fn hex_digits(text: Seq<u8>) -> Seq<u8> {
    if has_hex_prefix(text) {
        text.skip(2)
    } else {
        text
    }
}

/// Whether a text denotes exactly `n` bytes: it has an even length, and after
/// the optional prefix come `2 * n` hexadecimal digits.
pub open spec fn is_hex_of(text: Seq<u8>, n: nat) -> bool {
    &&& text.len() % 2 == 0
    &&& hex_digits(text).len() == 2 * n
    &&& forall|i: int| 0 <= i < 2 * n ==> (#[trigger] hex_digit(hex_digits(text)[i])) is Some
}

/// The byte that the `i`-th pair of digits denotes.
pub open spec fn hex_byte_at(digits: Seq<u8>, i: int) -> u8 {
    (16 * hex_digit(digits[2 * i]).unwrap() + hex_digit(digits[2 * i + 1]).unwrap()) as u8
}

/// The `n` bytes that a text denotes, or `None` where it denotes none.
pub open spec fn decode_hex(text: Seq<u8>, n: nat) -> Option<Seq<u8>> {
    if is_hex_of(text, n) {
        Some(Seq::new(n, |i: int| hex_byte_at(hex_digits(text), i)))
    } else {
        None
    }
}

/// The lower-case digit of a value below sixteen.
pub open spec fn hex_char(nibble: int) -> u8 {
    if nibble < 10 {
        (0x30 + nibble) as u8
    } else {
        (0x61 + nibble - 10) as u8
    }
}

/// The lower-case hexadecimal text of some bytes, with the `0x` prefix.
pub open spec fn encode_hex(bytes: Seq<u8>) -> Seq<u8> {
    seq![0x30u8, 0x78u8] + Seq::new(
        2 * bytes.len(),
        |i: int|
            if i % 2 == 0 {
                hex_char(bytes[i / 2] as int / 16)
            } else {
                hex_char(bytes[i / 2] as int % 16)
            },
    )
}

/// Decoding the text that `encode_hex` writes gives the bytes back.
pub proof fn lemma_decode_encode_hex(bytes: Seq<u8>)
    ensures
        decode_hex(encode_hex(bytes), bytes.len()) == Some(bytes),
{
    let text = encode_hex(bytes);
    let n = bytes.len();
    let digits = hex_digits(text);
    assert forall|i: int| 0 <= i < 2 * n implies (#[trigger] hex_digit(digits[i])) is Some by {
        assert(digits[i] == text[i + 2]);
    }
    let decoded = decode_hex(text, n).unwrap();
    assert forall|i: int| 0 <= i < n implies decoded[i] == bytes[i] by {
        assert(digits[2 * i] == text[2 * i + 2]);
        assert(digits[2 * i + 1] == text[2 * i + 3]);
    }
    assert(decoded =~= bytes);
}

} // verus!
