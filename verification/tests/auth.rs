use alloy::primitives::B256;
use alloy::signers::local::PrivateKeySigner;
use alloy::signers::SignerSync;
use axum::http::{HeaderMap, HeaderName, HeaderValue};

use bolt_sidecar::auth::{auth_from_headers, parse_auth_value, SIGNATURE_HEADER};
use bolt_sidecar::error::Error;
use bolt_sidecar::primitives::{Address, Signature};

const ADDRESS_ONE: &str = "0x7e5f4552091a69125d5dfcb7b8c2659029395bdf";

fn address_one() -> Address {
    Address::new([
        0x7e, 0x5f, 0x45, 0x52, 0x09, 0x1a, 0x69, 0x12, 0x5d, 0x5d, 0xfc, 0xb7, 0xb8, 0xc2, 0x65,
        0x90, 0x29, 0x39, 0x5b, 0xdf,
    ])
}

fn raw_signature(v: u8) -> Vec<u8> {
    let mut raw = Vec::new();
    for i in 0..32u8 {
        raw.push(i + 1);
    }
    for i in 0..32u8 {
        raw.push(0xa0 + i);
    }
    raw.push(v);
    raw
}

fn signature_with(y_parity: bool) -> Signature {
    let raw = raw_signature(0);
    let mut r = [0u8; 32];
    let mut s = [0u8; 32];
    r.copy_from_slice(&raw[..32]);
    s.copy_from_slice(&raw[32..64]);
    Signature::new(r, s, y_parity)
}

fn lower_hex(bytes: &[u8]) -> String {
    let mut text = String::new();
    for b in bytes {
        text.push_str(&format!("{b:02x}"));
    }
    text
}

fn headers_with(value: &str) -> HeaderMap {
    let mut headers = HeaderMap::new();
    headers.insert(SIGNATURE_HEADER, value.parse().unwrap());
    headers
}

#[test]
fn test_signature_from_headers() {
    let mut headers = HeaderMap::new();
    let hash = B256::from(PrivateKeySigner::random().to_bytes());
    let signer = PrivateKeySigner::random();
    let addr = signer.address();

    let expected_sig = signer.sign_hash_sync(&hash).unwrap();
    headers.insert(
        SIGNATURE_HEADER,
        format!("{addr}:{}", alloy::hex::encode_prefixed(expected_sig.as_bytes())).parse().unwrap(),
    );

    let (address, signature) = auth_from_headers(&headers).unwrap();
    let expected_sig = Signature::new(
        expected_sig.r().to_be_bytes(),
        expected_sig.s().to_be_bytes(),
        expected_sig.v(),
    );
    assert_eq!(signature, expected_sig);
    assert_eq!(address, Address::new(addr.into_array()));
}

#[test]
fn header_name_is_fixed() {
    assert_eq!(SIGNATURE_HEADER, "x-bolt-signature");
}

#[test]
fn well_formed_header_gives_address_and_signature() {
    let value = format!("{ADDRESS_ONE}:0x{}", lower_hex(&raw_signature(27)));
    let (address, signature) = auth_from_headers(&headers_with(&value)).unwrap();
    assert_eq!(address, address_one());
    assert_eq!(signature, signature_with(false));
    assert_eq!(signature.r[0], 0x01);
    assert_eq!(signature.r[31], 0x20);
    assert_eq!(signature.s[0], 0xa0);
    assert_eq!(signature.s[31], 0xbf);
}

#[test]
fn missing_header_is_no_signature() {
    assert_eq!(auth_from_headers(&HeaderMap::new()), Err(Error::NoSignature));
}

#[test]
fn other_headers_do_not_count() {
    let mut headers = HeaderMap::new();
    let value = format!("{ADDRESS_ONE}:0x{}", lower_hex(&raw_signature(27)));
    headers.insert("x-other-signature", value.parse().unwrap());
    assert_eq!(auth_from_headers(&headers), Err(Error::NoSignature));
}

#[test]
fn header_name_is_matched_in_any_case() {
    let mut headers = HeaderMap::new();
    let value = format!("{ADDRESS_ONE}:0x{}", lower_hex(&raw_signature(28)));
    let name = HeaderName::from_bytes(b"X-Bolt-Signature").unwrap();
    headers.insert(name, value.parse().unwrap());
    let (address, signature) = auth_from_headers(&headers).unwrap();
    assert_eq!(address, address_one());
    assert_eq!(signature, signature_with(true));
}

#[test]
fn first_value_of_a_repeated_header_is_read() {
    let mut headers = HeaderMap::new();
    let good = format!("{ADDRESS_ONE}:0x{}", lower_hex(&raw_signature(27)));
    headers.append(SIGNATURE_HEADER, good.parse().unwrap());
    headers.append(SIGNATURE_HEADER, "junk".parse().unwrap());
    assert_eq!(auth_from_headers(&headers), Ok((address_one(), signature_with(false))));

    let mut headers = HeaderMap::new();
    headers.append(SIGNATURE_HEADER, "junk".parse().unwrap());
    headers.append(SIGNATURE_HEADER, good.parse().unwrap());
    assert_eq!(auth_from_headers(&headers), Err(Error::MalformedHeader));
}

#[test]
fn missing_separator_is_malformed() {
    let value = format!("{ADDRESS_ONE}0x{}", lower_hex(&raw_signature(27)));
    assert_eq!(auth_from_headers(&headers_with(&value)), Err(Error::MalformedHeader));
    assert_eq!(auth_from_headers(&headers_with(ADDRESS_ONE)), Err(Error::MalformedHeader));
    assert_eq!(auth_from_headers(&headers_with("")), Err(Error::MalformedHeader));
}

#[test]
fn unparsable_address_is_malformed() {
    let signature = lower_hex(&raw_signature(27));
    for address in [
        "",
        "0x",
        "0x7e5f4552091a69125d5dfcb7b8c2659029395b",
        "0x7e5f4552091a69125d5dfcb7b8c2659029395bdf00",
        "0x7e5f4552091a69125d5dfcb7b8c2659029395bdg",
        "7e5f4552091a69125d5dfcb7b8c2659029395bd",
        "0x 7e5f4552091a69125d5dfcb7b8c2659029395bd",
    ] {
        let value = format!("{address}:0x{signature}");
        assert_eq!(auth_from_headers(&headers_with(&value)), Err(Error::MalformedHeader));
    }
}

#[test]
fn unparsable_signature_is_malformed() {
    let good = lower_hex(&raw_signature(27));
    let short = &good[..128];
    let long = format!("{good}00");
    let bad_digit = format!("{}zz", &good[..128]);
    for signature in ["", "0x", short, long.as_str(), bad_digit.as_str()] {
        let value = format!("{ADDRESS_ONE}:{signature}");
        assert_eq!(auth_from_headers(&headers_with(&value)), Err(Error::MalformedHeader));
    }
}

#[test]
fn header_that_is_not_text_is_malformed() {
    let mut headers = HeaderMap::new();
    let mut value = format!("{ADDRESS_ONE}:0x{}", lower_hex(&raw_signature(27))).into_bytes();
    value.push(0xfa);
    headers.insert(SIGNATURE_HEADER, HeaderValue::from_bytes(&value).unwrap());
    assert_eq!(auth_from_headers(&headers), Err(Error::MalformedHeader));
    assert_eq!(parse_auth_value(&value), Err(Error::MalformedHeader));
    assert_eq!(parse_auth_value(&[0x0a]), Err(Error::MalformedHeader));
}

#[test]
fn hexadecimal_is_read_in_either_case_and_without_prefix() {
    let signature = lower_hex(&raw_signature(27));
    let upper = format!(
        "0X7E5F4552091A69125D5DFCB7B8C2659029395BDF:0X{}",
        signature.to_uppercase()
    );
    assert_eq!(parse_auth_value(upper.as_bytes()), Ok((address_one(), signature_with(false))));
    let bare = format!("7e5f4552091a69125d5dfcb7b8c2659029395bdf:{signature}");
    assert_eq!(parse_auth_value(bare.as_bytes()), Ok((address_one(), signature_with(false))));
    let checksummed = format!("0x7E5F4552091A69125d5DfCb7b8C2659029395Bdf:0x{signature}");
    assert_eq!(
        parse_auth_value(checksummed.as_bytes()),
        Ok((address_one(), signature_with(false)))
    );
}

#[test]
fn last_byte_of_the_signature_gives_the_parity() {
    for (v, parity) in
        [(0u8, false), (1, true), (27, false), (28, true), (35, false), (36, true), (255, false)]
    {
        let value = format!("{ADDRESS_ONE}:0x{}", lower_hex(&raw_signature(v)));
        assert_eq!(
            parse_auth_value(value.as_bytes()),
            Ok((address_one(), signature_with(parity))),
            "v = {v}"
        );
    }
    for v in [2u8, 26, 29, 34] {
        let value = format!("{ADDRESS_ONE}:0x{}", lower_hex(&raw_signature(v)));
        assert_eq!(parse_auth_value(value.as_bytes()), Err(Error::MalformedHeader), "v = {v}");
    }
}

#[test]
fn text_after_a_second_separator_is_not_read() {
    let value = format!("{ADDRESS_ONE}:0x{}:anything", lower_hex(&raw_signature(27)));
    assert_eq!(parse_auth_value(value.as_bytes()), Ok((address_one(), signature_with(false))));
    let value = format!("{ADDRESS_ONE}::0x{}", lower_hex(&raw_signature(27)));
    assert_eq!(parse_auth_value(value.as_bytes()), Err(Error::MalformedHeader));
}

#[test]
fn extraction_does_not_verify_the_signature() {
    let value = format!("{ADDRESS_ONE}:0x{}", "00".repeat(65));
    let (address, signature) = parse_auth_value(value.as_bytes()).unwrap();
    assert_eq!(address, address_one());
    assert_eq!(signature, Signature::new([0u8; 32], [0u8; 32], false));
}

#[test]
fn raw_bytes_of_a_signature_end_with_the_parity() {
    let mut expected = raw_signature(27);
    assert_eq!(signature_with(false).to_raw(), expected);
    expected[64] = 28;
    assert_eq!(signature_with(true).to_raw(), expected);
}

#[test]
fn signature_written_as_raw_bytes_is_read_back() {
    for signature in [signature_with(false), signature_with(true)] {
        let value = format!("{ADDRESS_ONE}:0x{}", lower_hex(&signature.to_raw()));
        assert_eq!(parse_auth_value(value.as_bytes()), Ok((address_one(), signature)));
    }
}
