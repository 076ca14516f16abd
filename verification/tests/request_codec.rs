use edition_mint::error::MintError;
use edition_mint::request::{decode_request, encode_request, MintMasterEditionRequest};

fn sample_request() -> MintMasterEditionRequest {
    MintMasterEditionRequest {
        seller_fee_bp: 500,
        name: b"Edition".to_vec(),
        symbol: b"ED".to_vec(),
        uri: b"https://x/1.json".to_vec(),
        supply: 1,
    }
}

#[test]
fn round_trip_basic() {
    let req = sample_request();
    let bytes = encode_request(&req);
    assert_eq!(decode_request(&bytes), Ok(req));
}

#[test]
fn round_trip_empty_strings() {
    let req = MintMasterEditionRequest {
        seller_fee_bp: 0,
        name: Vec::new(),
        symbol: Vec::new(),
        uri: Vec::new(),
        supply: 0,
    };
    let bytes = encode_request(&req);
    assert_eq!(bytes.len(), 16);
    assert_eq!(decode_request(&bytes), Ok(req));
}

#[test]
fn round_trip_multibyte_text() {
    let req = MintMasterEditionRequest {
        seller_fee_bp: 65535,
        name: "héllo — ✓".as_bytes().to_vec(),
        symbol: "ÉD".as_bytes().to_vec(),
        uri: "https://x/ü.json".as_bytes().to_vec(),
        supply: 65535,
    };
    let bytes = encode_request(&req);
    assert_eq!(decode_request(&bytes), Ok(req));
}

#[test]
fn encode_exact_bytes() {
    let req = MintMasterEditionRequest {
        seller_fee_bp: 500,
        name: b"AB".to_vec(),
        symbol: b"C".to_vec(),
        uri: Vec::new(),
        supply: 258,
    };
    let bytes = encode_request(&req);
    let expected: Vec<u8> = vec![
        244, 1, // seller_fee_bp = 500, little endian
        2, 0, 0, 0, 65, 66, // name "AB"
        1, 0, 0, 0, 67, // symbol "C"
        0, 0, 0, 0, // empty uri
        2, 1, // supply = 258, little endian
    ];
    assert_eq!(bytes, expected);
}

#[test]
fn decode_rejects_truncation_everywhere() {
    let bytes = encode_request(&sample_request());
    for cut in 0..bytes.len() {
        let short = &bytes[..cut];
        assert_eq!(
            decode_request(short),
            Err(MintError::MalformedArgumentRecord),
            "truncation at {cut} must fail"
        );
    }
}

#[test]
fn decode_rejects_invalid_utf8() {
    // fee, then a one-byte name that is not valid UTF-8.
    let mut bytes: Vec<u8> = vec![0, 0, 1, 0, 0, 0, 0xFF];
    // empty symbol, empty uri, supply
    bytes.extend_from_slice(&[0, 0, 0, 0, 0, 0, 0, 0, 7, 0]);
    assert_eq!(decode_request(&bytes), Err(MintError::MalformedArgumentRecord));
}

#[test]
fn decode_rejects_oversized_length_prefix() {
    // name length prefix claims 200 bytes but only 3 follow.
    let bytes: Vec<u8> = vec![0, 0, 200, 0, 0, 0, 1, 2, 3];
    assert_eq!(decode_request(&bytes), Err(MintError::MalformedArgumentRecord));
}

#[test]
fn decode_ignores_trailing_bytes() {
    let req = sample_request();
    let mut bytes = encode_request(&req);
    bytes.extend_from_slice(&[9, 9, 9]);
    assert_eq!(decode_request(&bytes), Ok(req));
}

#[test]
fn decode_empty_is_malformed() {
    assert_eq!(decode_request(&[]), Err(MintError::MalformedArgumentRecord));
}
