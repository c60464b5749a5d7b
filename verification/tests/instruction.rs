use anchor_lang::prelude::Pubkey;
use devnet_token_faucet::address::Address;
use devnet_token_faucet::codec::{decode, encode, Operation, WireStyle};
use devnet_token_faucet::derivation::normalize;
use devnet_token_faucet::error::FaucetError;
use devnet_token_faucet::faucet::{AirdropSpl, CreateMint};
use devnet_token_faucet::instruction::{
    airdrop_spl_with_mint_pdas_ix, airdrop_spl_with_ticker_ix, create_mint_ix, AccountMeta,
};

fn address(key: &Pubkey) -> Address {
    Address { bytes: key.to_bytes() }
}

#[test]
fn test_creat_mint_ix() {
    let program_id = address(&Pubkey::new_unique());
    let payer = address(&Pubkey::new_unique());
    let ticker = "SOL".to_string();
    let decimals: u8 = 9;

    let instruction = create_mint_ix(program_id, payer, ticker.clone(), decimals).unwrap();
    assert_eq!(instruction.program_id, program_id);
    assert_eq!(instruction.accounts.len(), 6);
    assert_eq!(
        instruction.data,
        encode(
            WireStyle::Structured,
            &Operation::CreateMint { ticker: normalize(&ticker), decimals: decimals }
        )
    );
}

#[test]
fn test_airdrop_spl_ix() {
    let program_id = address(&Pubkey::new_unique());
    let payer = address(&Pubkey::new_unique());
    let ticker = "SOL".to_string();
    let amount: u64 = 10;

    let instruction =
        airdrop_spl_with_ticker_ix(&program_id, ticker.clone(), &payer, amount).unwrap();
    assert_eq!(instruction.program_id, program_id);
    assert_eq!(instruction.accounts.len(), 4);
    assert_eq!(
        instruction.data,
        encode(WireStyle::Structured, &Operation::AirdropSpl { amount })
    )
}

#[test]
fn create_mint_ix_lists_the_accounts_in_order() {
    let program = Pubkey::new_from_array([11u8; 32]);
    let payer = Pubkey::new_from_array([12u8; 32]);
    let ix = create_mint_ix(address(&program), address(&payer), "SOL".to_string(), 9).unwrap();
    let (mint, _) = Pubkey::find_program_address(&[b"mint", b"sol"], &program);
    let (authority, _) = Pubkey::find_program_address(&[b"mint-authority", b"sol"], &program);
    let expected = vec![
        AccountMeta { pubkey: address(&mint), is_signer: false, is_writable: true },
        AccountMeta { pubkey: address(&authority), is_signer: false, is_writable: true },
        AccountMeta { pubkey: address(&payer), is_signer: true, is_writable: true },
        AccountMeta {
            pubkey: address(&anchor_spl::token::ID),
            is_signer: false,
            is_writable: false,
        },
        AccountMeta {
            pubkey: address(&anchor_lang::system_program::ID),
            is_signer: false,
            is_writable: false,
        },
        AccountMeta {
            pubkey: address(&anchor_lang::solana_program::rent::ID),
            is_signer: false,
            is_writable: false,
        },
    ];
    assert_eq!(ix.accounts, expected);
    assert_eq!(ix.data, vec![0u8, 3, 0, 0, 0, b's', b'o', b'l', 9]);
}

#[test]
fn well_known_addresses_have_the_documented_bytes() {
    let ix = create_mint_ix(
        Address { bytes: [1u8; 32] },
        Address { bytes: [2u8; 32] },
        "sol".to_string(),
        0,
    )
    .unwrap();
    assert_eq!(
        ix.accounts[3].pubkey.bytes,
        [
            6u8, 221, 246, 225, 215, 101, 161, 147, 217, 203, 225, 70, 206, 235, 121, 172, 28,
            180, 133, 237, 95, 91, 55, 145, 58, 140, 245, 133, 126, 255, 0, 169
        ]
    );
    assert_eq!(ix.accounts[4].pubkey.bytes, [0u8; 32]);
    assert_eq!(
        ix.accounts[5].pubkey.bytes,
        [
            6u8, 167, 213, 23, 25, 44, 92, 81, 33, 140, 201, 76, 61, 74, 241, 127, 88, 218, 238,
            8, 155, 161, 253, 68, 227, 219, 217, 138, 0, 0, 0, 0
        ]
    );
}

#[test]
fn create_mint_ix_rejects_a_ticker_over_sixteen_bytes() {
    let program = Address { bytes: [11u8; 32] };
    let payer = Address { bytes: [12u8; 32] };
    assert_eq!(
        create_mint_ix(program, payer, "ABCDEFGHIJKLMNOPQ".to_string(), 9),
        Err(FaucetError::TickerTooLong)
    );
    assert!(create_mint_ix(program, payer, "ABCDEFGHIJKLMNOP".to_string(), 9).is_ok());
}

#[test]
fn airdrop_ix_with_ticker_lists_the_accounts_in_order() {
    let program = Pubkey::new_from_array([11u8; 32]);
    let payer = Pubkey::new_from_array([12u8; 32]);
    let ix =
        airdrop_spl_with_ticker_ix(&address(&program), "Sol".to_string(), &address(&payer), 10)
            .unwrap();
    let (mint, _) = Pubkey::find_program_address(&[b"mint", b"sol"], &program);
    let (authority, _) = Pubkey::find_program_address(&[b"mint-authority", b"sol"], &program);
    #[allow(deprecated)]
    let destination = spl_associated_token_account::get_associated_token_address(&payer, &mint);
    let expected = vec![
        AccountMeta { pubkey: address(&mint), is_signer: false, is_writable: true },
        AccountMeta { pubkey: address(&authority), is_signer: false, is_writable: false },
        AccountMeta { pubkey: address(&destination), is_signer: false, is_writable: true },
        AccountMeta {
            pubkey: address(&anchor_spl::token::ID),
            is_signer: false,
            is_writable: false,
        },
    ];
    assert_eq!(ix.accounts, expected);
    assert_eq!(ix.data, vec![1u8, 10, 0, 0, 0, 0, 0, 0, 0]);
}

#[test]
fn airdrop_ix_with_ticker_fails_where_the_ticker_cannot_be_a_seed() {
    let program = Address { bytes: [11u8; 32] };
    let payer = Address { bytes: [12u8; 32] };
    let long = "x".repeat(33);
    assert_eq!(
        airdrop_spl_with_ticker_ix(&program, long, &payer, 1),
        Err(FaucetError::DerivationFailure)
    );
}

#[test]
fn airdrop_ix_with_addresses_takes_them_as_given() {
    let program = Address { bytes: [11u8; 32] };
    let mint = Pubkey::new_from_array([21u8; 32]);
    let authority = Address { bytes: [22u8; 32] };
    let payer = Pubkey::new_from_array([23u8; 32]);
    let ix = airdrop_spl_with_mint_pdas_ix(
        &program,
        &address(&mint),
        &authority,
        &address(&payer),
        0x0102030405060708,
    )
    .unwrap();
    #[allow(deprecated)]
    let destination = spl_associated_token_account::get_associated_token_address(&payer, &mint);
    assert_eq!(ix.program_id, program);
    assert_eq!(ix.accounts.len(), 4);
    assert_eq!(ix.accounts[0].pubkey, address(&mint));
    assert_eq!(ix.accounts[1].pubkey, authority);
    assert_eq!(ix.accounts[2].pubkey, address(&destination));
    assert_eq!(ix.data, vec![1u8, 8, 7, 6, 5, 4, 3, 2, 1]);
}

#[test]
fn account_structs_list_their_fields() {
    let a = |n: u8| Address { bytes: [n; 32] };
    let registration = CreateMint {
        mint: a(1),
        mint_authority: a(2),
        payer: a(3),
        token_program: a(4),
        system_program: a(5),
        rent: a(6),
    };
    let metas = registration.to_account_metas();
    assert_eq!(metas.len(), 6);
    for (i, meta) in metas.iter().enumerate() {
        assert_eq!(meta.pubkey, a(i as u8 + 1));
        assert_eq!(meta.is_signer, i == 2);
        assert_eq!(meta.is_writable, i < 3);
    }
    let issuance =
        AirdropSpl { mint: a(1), mint_authority: a(2), destination: a(3), token_program: a(4) };
    let metas = issuance.to_account_metas();
    assert_eq!(metas.len(), 4);
    assert_eq!(metas[0], AccountMeta::new(a(1), false));
    assert_eq!(metas[1], AccountMeta::new_readonly(a(2), false));
    assert_eq!(metas[2], AccountMeta::new(a(3), false));
    assert_eq!(metas[3], AccountMeta::new_readonly(a(4), false));
}

#[test]
fn built_calls_decode_to_their_operations() {
    let program = Address { bytes: [11u8; 32] };
    let payer = Address { bytes: [12u8; 32] };
    let ix = create_mint_ix(program, payer, "SOL".to_string(), 9).unwrap();
    let decoded = decode(WireStyle::Structured, &ix.data).unwrap();
    assert_eq!(decoded.opcode(), 0);
    assert_eq!(decoded, Operation::CreateMint { ticker: b"sol".to_vec(), decimals: 9 });
    let ix = airdrop_spl_with_ticker_ix(&program, "SOL".to_string(), &payer, 10).unwrap();
    assert_eq!(&ix.data[1..], &10u64.to_le_bytes());
    let decoded = decode(WireStyle::Structured, &ix.data).unwrap();
    assert_eq!(decoded.opcode(), 1);
    assert_eq!(decoded, Operation::AirdropSpl { amount: 10 });
}

#[test]
fn items_are_reachable_from_the_crate_root() {
    let program = devnet_token_faucet::Address { bytes: [11u8; 32] };
    assert_eq!(
        devnet_token_faucet::get_mint_address(&program, "SOL"),
        devnet_token_faucet::derivation::get_mint_address(&program, "sol")
    );
    assert!(devnet_token_faucet::get_mint_authority_address(&program, "SOL").is_ok());
}
