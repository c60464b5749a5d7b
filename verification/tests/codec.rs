use devnet_token_faucet::bytes::{put_le, read_le};
use devnet_token_faucet::codec::{decode, encode, Operation, WireStyle};
use devnet_token_faucet::derivation::normalize;
use devnet_token_faucet::error::FaucetError;

#[test]
fn registration_round_trips_in_both_styles() {
    let operation = Operation::CreateMint { ticker: normalize("SOL"), decimals: 9 };
    for style in [WireStyle::Structured, WireStyle::Raw] {
        let payload = encode(style, &operation);
        let decoded = decode(style, &payload).unwrap();
        assert_eq!(decoded.opcode(), 0);
        assert_eq!(decoded, Operation::CreateMint { ticker: b"sol".to_vec(), decimals: 9 });
    }
}

#[test]
fn issuance_round_trips_in_both_styles() {
    let operation = Operation::AirdropSpl { amount: 10 };
    for style in [WireStyle::Structured, WireStyle::Raw] {
        let payload = encode(style, &operation);
        assert_eq!(payload, vec![1u8, 10, 0, 0, 0, 0, 0, 0, 0]);
        let decoded = decode(style, &payload).unwrap();
        assert_eq!(decoded.opcode(), 1);
        assert_eq!(decoded, Operation::AirdropSpl { amount: 10 });
    }
}

#[test]
fn registration_payload_bytes() {
    let operation = Operation::CreateMint { ticker: b"sol".to_vec(), decimals: 9 };
    assert_eq!(
        encode(WireStyle::Structured, &operation),
        vec![0u8, 3, 0, 0, 0, b's', b'o', b'l', 9]
    );
    assert_eq!(encode(WireStyle::Raw, &operation), vec![0u8, b's', b'o', b'l', 9]);
}

#[test]
fn amount_is_little_endian() {
    let operation = Operation::AirdropSpl { amount: 0x1122334455667788 };
    assert_eq!(
        encode(WireStyle::Raw, &operation),
        vec![1u8, 0x88, 0x77, 0x66, 0x55, 0x44, 0x33, 0x22, 0x11]
    );
    let max = Operation::AirdropSpl { amount: u64::MAX };
    let payload = encode(WireStyle::Structured, &max);
    assert_eq!(payload, vec![1u8, 255, 255, 255, 255, 255, 255, 255, 255]);
    assert_eq!(decode(WireStyle::Structured, &payload), Ok(max));
}

#[test]
fn empty_ticker_round_trips() {
    let operation = Operation::CreateMint { ticker: Vec::new(), decimals: 255 };
    assert_eq!(encode(WireStyle::Raw, &operation), vec![0u8, 255]);
    assert_eq!(encode(WireStyle::Structured, &operation), vec![0u8, 0, 0, 0, 0, 255]);
    for style in [WireStyle::Structured, WireStyle::Raw] {
        assert_eq!(decode(style, &encode(style, &operation)), Ok(operation.clone()));
    }
}

#[test]
fn malformed_payloads_are_rejected() {
    let malformed = Err(FaucetError::MalformedPayload);
    for style in [WireStyle::Structured, WireStyle::Raw] {
        assert_eq!(decode(style, &vec![]), malformed);
        assert_eq!(decode(style, &vec![2u8, 0, 0]), malformed);
        assert_eq!(decode(style, &vec![0u8]), malformed);
        assert_eq!(decode(style, &vec![1u8, 1, 2, 3]), malformed);
    }
    // the length prefix must agree with the payload
    assert_eq!(decode(WireStyle::Structured, &vec![0u8, 4, 0, 0, 0, b's', b'o', b'l', 9]), malformed);
    assert_eq!(decode(WireStyle::Structured, &vec![0u8, 2, 0, 0, 0, b's', b'o', b'l', 9]), malformed);
    assert_eq!(decode(WireStyle::Structured, &vec![0u8, b's', b'o', b'l', 9]), malformed);
    assert_eq!(decode(WireStyle::Structured, &vec![1u8, 9, 9, 1, 0, 0, 0, 0, 0, 0, 0]), malformed);
}

#[test]
fn issuance_with_a_ticker_decodes_to_the_amount() {
    let raw = vec![1u8, b's', b'o', b'l', 5, 0, 0, 0, 0, 0, 0, 0];
    assert_eq!(decode(WireStyle::Raw, &raw), Ok(Operation::AirdropSpl { amount: 5 }));
    let structured = vec![1u8, 3, 0, 0, 0, b's', b'o', b'l', 5, 0, 0, 0, 0, 0, 0, 0];
    assert_eq!(
        decode(WireStyle::Structured, &structured),
        Ok(Operation::AirdropSpl { amount: 5 })
    );
}

#[test]
fn little_endian_fields() {
    let mut out = vec![7u8];
    put_le(&mut out, 0x01020304, 4);
    assert_eq!(out, vec![7u8, 4, 3, 2, 1]);
    put_le(&mut out, 0x0a0b, 1);
    assert_eq!(out, vec![7u8, 4, 3, 2, 1, 0x0b]);
    put_le(&mut out, 99, 0);
    assert_eq!(out.len(), 6);
    assert_eq!(read_le(&out, 1, 4), 0x01020304);
    assert_eq!(read_le(&out, 0, 2), 0x0407);
    assert_eq!(read_le(&out, 6, 0), 0);
}
