use crate::address::{
    rent_sysvar_bytes, rent_sysvar_id, system_program_bytes, system_program_id,
    token_program_bytes, token_program_id, Address,
};
use crate::codec::{encode, encoding, Operation, OperationView, WireStyle};
use crate::derivation::{
    associated_token_address, derive_address, get_associated_token_address, get_mint_address,
    get_mint_authority_address, mint_address_of, mint_authority_address_of,
    mint_authority_tag_bytes, mint_tag_bytes, normalize, normalized,
};
use crate::error::FaucetError;
use crate::faucet::{AirdropSpl, CreateMint};
use crate::record::TICKER_CAPACITY;
use vstd::prelude::*;

verus! {

/// One entry of a call's account list.
#[derive(Clone, Copy, Debug, PartialEq, Eq)]
pub struct AccountMeta {
    pub pubkey: Address,
    /// The account signs the transaction.
    pub is_signer: bool,
    /// The call may change the account.
    pub is_writable: bool,
}

/// An entry of an account list as a mathematical value.
pub struct AccountMetaView {
    pub pubkey: Seq<u8>,
    pub is_signer: bool,
    pub is_writable: bool,
}

impl View for AccountMeta {
    type V = AccountMetaView;

    open spec fn view(&self) -> AccountMetaView {
        AccountMetaView {
            pubkey: self.pubkey@,
            is_signer: self.is_signer,
            is_writable: self.is_writable,
        }
    }
}

/// An entry for an account that the call may change.
pub open spec fn writable(pubkey: Seq<u8>, is_signer: bool) -> AccountMetaView {
    AccountMetaView { pubkey, is_signer, is_writable: true }
}

/// An entry for an account that the call only reads.
pub open spec fn readonly(pubkey: Seq<u8>, is_signer: bool) -> AccountMetaView {
    AccountMetaView { pubkey, is_signer, is_writable: false }
}

impl AccountMeta {
    /// An entry for an account that the call may change.
    pub fn new(pubkey: Address, is_signer: bool) -> (r: AccountMeta)
        ensures
            r@ == writable(pubkey@, is_signer),
            r.pubkey == pubkey,
    {
        AccountMeta { pubkey, is_signer, is_writable: true }
    }

    /// An entry for an account that the call only reads.
    pub fn new_readonly(pubkey: Address, is_signer: bool) -> (r: AccountMeta)
        ensures
            r@ == readonly(pubkey@, is_signer),
            r.pubkey == pubkey,
    {
        AccountMeta { pubkey, is_signer, is_writable: false }
    }
}

/// The mathematical values of a list of entries.
pub open spec fn meta_views(metas: Seq<AccountMeta>) -> Seq<AccountMetaView> {
    Seq::new(metas.len(), |i: int| metas[i]@)
}

/// A call ready to submit: the program, its accounts in order, and the payload.
#[derive(Clone, Debug, PartialEq, Eq)]
pub struct Instruction {
    pub program_id: Address,
    pub accounts: Vec<AccountMeta>,
    pub data: Vec<u8>,
}


impl Instruction {
    /// The account list as mathematical values.
    pub open spec fn metas(&self) -> Seq<AccountMetaView> {
        meta_views(self.accounts@)
    }
}

/// The account list of a registration: mint, authority record, payer, token program,
/// system program, rent sysvar. The payer signs; the first three may change.
pub open spec fn create_mint_metas(
    mint: Seq<u8>,
    mint_authority: Seq<u8>,
    payer: Seq<u8>,
    token_program: Seq<u8>,
    system_program: Seq<u8>,
    rent: Seq<u8>,
) -> Seq<AccountMetaView> {
    seq![
        writable(mint, false),
        writable(mint_authority, false),
        writable(payer, true),
        readonly(token_program, false),
        readonly(system_program, false),
        readonly(rent, false),
    ]
}

/// The account list of an issuance: mint, authority record, destination, token program.
/// Nobody signs; mint and destination may change.
pub open spec fn airdrop_spl_metas(
    mint: Seq<u8>,
    mint_authority: Seq<u8>,
    destination: Seq<u8>,
    token_program: Seq<u8>,
) -> Seq<AccountMetaView> {
    seq![
        writable(mint, false),
        readonly(mint_authority, false),
        writable(destination, false),
        readonly(token_program, false),
    ]
}

impl CreateMint {
    /// The call's account list.
    pub fn to_account_metas(&self) -> (r: Vec<AccountMeta>)
        ensures
            meta_views(r@) == create_mint_metas(
                self.mint@,
                self.mint_authority@,
                self.payer@,
                self.token_program@,
                self.system_program@,
                self.rent@,
            ),
    {
        let mut metas: Vec<AccountMeta> = Vec::new();
        metas.push(AccountMeta::new(self.mint, false));
        metas.push(AccountMeta::new(self.mint_authority, false));
        metas.push(AccountMeta::new(self.payer, true));
        metas.push(AccountMeta::new_readonly(self.token_program, false));
        metas.push(AccountMeta::new_readonly(self.system_program, false));
        metas.push(AccountMeta::new_readonly(self.rent, false));
        assert(meta_views(metas@) =~= create_mint_metas(
            self.mint@,
            self.mint_authority@,
            self.payer@,
            self.token_program@,
            self.system_program@,
            self.rent@,
        ));
        metas
    }
}

impl AirdropSpl {
    /// The call's account list.
    pub fn to_account_metas(&self) -> (r: Vec<AccountMeta>)
        ensures
            meta_views(r@) == airdrop_spl_metas(
                self.mint@,
                self.mint_authority@,
                self.destination@,
                self.token_program@,
            ),
    {
        let mut metas: Vec<AccountMeta> = Vec::new();
        metas.push(AccountMeta::new(self.mint, false));
        metas.push(AccountMeta::new_readonly(self.mint_authority, false));
        metas.push(AccountMeta::new(self.destination, false));
        metas.push(AccountMeta::new_readonly(self.token_program, false));
        assert(meta_views(metas@) =~= airdrop_spl_metas(
            self.mint@,
            self.mint_authority@,
            self.destination@,
            self.token_program@,
        ));
        metas
    }
}

/// Why no registration call can be built for a ticker, if none can: the normalized ticker
/// exceeds the record's buffer, or one of its two addresses does not derive.
pub open spec fn create_mint_ix_error(program_id: Seq<u8>, ticker: Seq<char>) -> Option<
    FaucetError,
> {
    if normalized(ticker).len() > TICKER_CAPACITY {
        Some(FaucetError::TickerTooLong)
    } else if mint_address_of(ticker, program_id) is None || mint_authority_address_of(
        ticker,
        program_id,
    ) is None {
        Some(FaucetError::DerivationFailure)
    } else {
        None
    }
}

/// Builds the registration call for a ticker: both addresses are derived from the ticker,
/// the payer signs, and the payload carries the normalized ticker in the structured style.
pub fn create_mint_ix(program_id: Address, payer: Address, ticker: String, decimals: u8) -> (r:
    Result<Instruction, FaucetError>)
    ensures
        match r {
            Ok(ix) => {
                &&& create_mint_ix_error(program_id@, ticker@) is None
                &&& ix.program_id == program_id
                &&& ix.metas() == create_mint_metas(
                    mint_address_of(ticker@, program_id@).unwrap().0,
                    mint_authority_address_of(ticker@, program_id@).unwrap().0,
                    payer@,
                    token_program_bytes(),
                    system_program_bytes(),
                    rent_sysvar_bytes(),
                )
                &&& ix.data@ == encoding(
                    WireStyle::Structured,
                    OperationView::CreateMint { ticker: normalized(ticker@), decimals },
                )
            },
            Err(e) => create_mint_ix_error(program_id@, ticker@) == Some(e),
        },
{
    let name = normalize(ticker.as_str());
    if name.len() > TICKER_CAPACITY {
        return Err(FaucetError::TickerTooLong);
    }
    let mint = match derive_address(mint_tag_bytes(), name.clone(), &program_id) {
        Ok(found) => found.address,
        Err(e) => {
            return Err(e);
        },
    };
    let mint_authority = match derive_address(
        mint_authority_tag_bytes(),
        name.clone(),
        &program_id,
    ) {
        Ok(found) => found.address,
        Err(e) => {
            return Err(e);
        },
    };
    let accounts = CreateMint {
        mint,
        mint_authority,
        payer,
        token_program: token_program_id(),
        system_program: system_program_id(),
        rent: rent_sysvar_id(),
    };
    let operation = Operation::CreateMint { ticker: name, decimals };
    Ok(
        Instruction {
            program_id,
            accounts: accounts.to_account_metas(),
            data: encode(WireStyle::Structured, &operation),
        },
    )
}

/// The issuance call on given mint and authority addresses: the destination is the
/// payer's associated token account for the mint.
pub fn airdrop_spl_with_mint_pdas_ix(
    program_id: &Address,
    mint: &Address,
    mint_authority: &Address,
    payer: &Address,
    amount: u64,
) -> (r: Result<Instruction, FaucetError>)
    ensures
        match r {
            Ok(ix) => {
                &&& associated_token_address(payer@, mint@) matches Some(destination)
                &&& ix.program_id == *program_id
                &&& ix.metas() == airdrop_spl_metas(
                    mint@,
                    mint_authority@,
                    destination.0,
                    token_program_bytes(),
                )
                &&& ix.data@ == encoding(
                    WireStyle::Structured,
                    OperationView::AirdropSpl { amount },
                )
            },
            Err(e) => e == FaucetError::DerivationFailure && associated_token_address(
                payer@,
                mint@,
            ) is None,
        },
{
    let destination = match get_associated_token_address(payer, mint) {
        Ok(address) => address,
        Err(e) => {
            return Err(e);
        },
    };
    let accounts = AirdropSpl {
        mint: *mint,
        mint_authority: *mint_authority,
        destination,
        token_program: token_program_id(),
    };
    let operation = Operation::AirdropSpl { amount };
    Ok(
        Instruction {
            program_id: *program_id,
            accounts: accounts.to_account_metas(),
            data: encode(WireStyle::Structured, &operation),
        },
    )
}

/// Whether an issuance call can be built for a ticker: both of its addresses derive, and
/// so does the payer's token account for its mint.
pub open spec fn airdrop_derives(program_id: Seq<u8>, ticker: Seq<char>, payer: Seq<u8>) -> bool {
    &&& mint_address_of(ticker, program_id) matches Some(mint)
    &&& mint_authority_address_of(ticker, program_id) is Some
    &&& associated_token_address(payer, mint.0) is Some
}

/// The issuance call for a ticker: mint and authority are derived from the ticker, the
/// destination is the payer's associated token account for the mint.
pub fn airdrop_spl_with_ticker_ix(
    program_id: &Address,
    ticker: String,
    payer: &Address,
    amount: u64,
) -> (r: Result<Instruction, FaucetError>)
    ensures
        match r {
            Ok(ix) => {
                &&& airdrop_derives(program_id@, ticker@, payer@)
                &&& ix.program_id == *program_id
                &&& ix.metas() == airdrop_spl_metas(
                    mint_address_of(ticker@, program_id@).unwrap().0,
                    mint_authority_address_of(ticker@, program_id@).unwrap().0,
                    associated_token_address(
                        payer@,
                        mint_address_of(ticker@, program_id@).unwrap().0,
                    ).unwrap().0,
                    token_program_bytes(),
                )
                &&& ix.data@ == encoding(
                    WireStyle::Structured,
                    OperationView::AirdropSpl { amount },
                )
            },
            Err(e) => e == FaucetError::DerivationFailure && !airdrop_derives(
                program_id@,
                ticker@,
                payer@,
            ),
        },
{
    let mint = match get_mint_address(program_id, ticker.as_str()) {
        Ok(address) => address,
        Err(e) => {
            return Err(e);
        },
    };
    let mint_authority = match get_mint_authority_address(program_id, ticker.as_str()) {
        Ok(address) => address,
        Err(e) => {
            return Err(e);
        },
    };
    airdrop_spl_with_mint_pdas_ix(program_id, &mint, &mint_authority, payer, amount)
}

} // verus!
