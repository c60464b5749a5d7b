use devnet_token_faucet::address::Address;
use devnet_token_faucet::record::{MintData, RECORD_LEN};

fn sample() -> MintData {
    let mut ticker = [0u8; 16];
    ticker[..3].copy_from_slice(b"sol");
    MintData {
        mint: Address { bytes: [5u8; 32] },
        bump: 254,
        is_initialized: true,
        decimals: 9,
        ticker_len: 3,
        ticker,
    }
}

#[test]
fn record_layout() {
    let packed = sample().pack();
    assert_eq!(packed.len(), RECORD_LEN);
    assert_eq!(packed.len(), 8 + 32 + 1 + 1 + 1 + 1 + 16);
    assert_eq!(&packed[..8], &[211u8, 133, 4, 40, 1, 136, 135, 62]);
    assert_eq!(&packed[8..40], &[5u8; 32]);
    assert_eq!(&packed[40..44], &[254u8, 1, 9, 3]);
    assert_eq!(&packed[44..], b"sol\0\0\0\0\0\0\0\0\0\0\0\0\0");
}

#[test]
fn record_round_trips() {
    let record = sample();
    assert_eq!(MintData::unpack(&record.pack()), Some(record));
    let mut longer = record.pack();
    longer.extend_from_slice(&[7u8; 5]);
    assert_eq!(MintData::unpack(&longer), Some(record));
    let mut empty = MintData::empty();
    assert_eq!(MintData::unpack(&empty.pack()), Some(empty));
    empty.ticker_len = 200;
    assert_eq!(MintData::unpack(&empty.pack()), Some(empty));
}

#[test]
fn account_data_without_a_record() {
    let packed = sample().pack();
    assert_eq!(MintData::unpack(&packed[..59]), None);
    assert_eq!(MintData::unpack(&[]), None);
    assert_eq!(MintData::unpack(&[0u8; 60]), None);
    for i in 0..8 {
        let mut other_tag = packed.clone();
        other_tag[i] ^= 1;
        assert_eq!(MintData::unpack(&other_tag), None);
    }
    let mut flag = packed.clone();
    flag[41] = 2;
    assert_eq!(MintData::unpack(&flag), None);
    flag[41] = 0;
    let unset = MintData::unpack(&flag).unwrap();
    assert!(!unset.is_initialized);
}
