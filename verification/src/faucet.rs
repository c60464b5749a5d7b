use crate::address::Address;
use crate::derivation::{
    derive_address, derived, mint_authority_tag, mint_authority_tag_bytes, mint_tag,
    mint_tag_bytes, normalize, normalized,
};
use crate::error::FaucetError;
use crate::record::{pad_ticker, padded, MintData, MintRecord, TokenAccount, TICKER_CAPACITY};
use vstd::prelude::*;

verus! {

/// The accounts of a registration call, in the order of the call's account list.
#[derive(Clone, Copy, Debug, PartialEq, Eq)]
pub struct CreateMint {
    pub mint: Address,
    pub mint_authority: Address,
    pub payer: Address,
    pub token_program: Address,
    pub system_program: Address,
    pub rent: Address,
}

/// The accounts of an issuance call, in the order of the call's account list.
#[derive(Clone, Copy, Debug, PartialEq, Eq)]
pub struct AirdropSpl {
    pub mint: Address,
    pub mint_authority: Address,
    pub destination: Address,
    pub token_program: Address,
}

/// The mint-increase that an authorized issuance asks of the ledger, signed by the
/// authority record's own seeds.
#[derive(Clone, Debug, PartialEq, Eq)]
pub struct MintTo {
    pub mint: Address,
    pub to: Address,
    pub authority: Address,
    pub amount: u64,
    /// Domain tag, stored ticker and bump seed: the seeds of `authority`.
    pub signer_seeds: Vec<Vec<u8>>,
}

/// The seeds that sign for an authority record.
pub open spec fn signing_seeds(ticker: Seq<u8>, bump: u8) -> Seq<Seq<u8>> {
    seq![mint_authority_tag(), ticker, seq![bump]]
}

impl MintTo {
    /// The byte strings of the signer seeds.
    pub open spec fn seeds(&self) -> Seq<Seq<u8>> {
        Seq::new(self.signer_seeds@.len(), |i: int| self.signer_seeds@[i]@)
    }
}

/// Why a registration is rejected, if it is. The checks come in this order: the record is
/// fresh, the ticker fits, both addresses derive, the accounts are the derived ones.
pub open spec fn registration_error(
    program_id: Seq<u8>,
    accounts: CreateMint,
    before: MintData,
    ticker: Seq<char>,
) -> Option<FaucetError> {
    let name = normalized(ticker);
    let mint = derived(mint_tag(), name, program_id);
    let authority = derived(mint_authority_tag(), name, program_id);
    if before.is_initialized {
        Some(FaucetError::AlreadyInitialized)
    } else if name.len() > TICKER_CAPACITY {
        Some(FaucetError::TickerTooLong)
    } else if mint is None || authority is None {
        Some(FaucetError::DerivationFailure)
    } else if mint.unwrap().0 != accounts.mint@ || authority.unwrap().0
        != accounts.mint_authority@ {
        Some(FaucetError::AccountMismatch)
    } else {
        None
    }
}

/// The authority record that a registration writes.
pub open spec fn registered(
    program_id: Seq<u8>,
    accounts: CreateMint,
    ticker: Seq<char>,
    decimals: u8,
    after: MintData,
) -> bool {
    let name = normalized(ticker);
    &&& after.mint == accounts.mint
    &&& derived(mint_authority_tag(), name, program_id) matches Some(authority)
    &&& after.bump == authority.1
    &&& after.is_initialized
    &&& after.decimals == decimals
    &&& after.ticker_len == name.len()
    &&& after.ticker@ == padded(name)
}

/// Registers a ticker: fills the authority record and returns the mint record that the
/// ledger creates with it. A rejected call leaves the record as it was.
pub fn create_mint(
    program_id: &Address,
    accounts: &CreateMint,
    mint_authority: &mut MintData,
    ticker: String,
    decimals: u8,
) -> (r: Result<MintRecord, FaucetError>)
    ensures
        match r {
            Ok(mint) => {
                &&& registration_error(program_id@, *accounts, *old(mint_authority), ticker@)
                    is None
                &&& registered(program_id@, *accounts, ticker@, decimals, *final(mint_authority))
                &&& mint == (MintRecord {
                    decimals,
                    supply: 0,
                    authority: accounts.mint_authority,
                })
            },
            Err(e) => {
                &&& registration_error(program_id@, *accounts, *old(mint_authority), ticker@)
                    == Some(e)
                &&& *final(mint_authority) == *old(mint_authority)
            },
        },
{
    if mint_authority.is_initialized {
        return Err(FaucetError::AlreadyInitialized);
    }
    let name = normalize(ticker.as_str());
    if name.len() > TICKER_CAPACITY {
        return Err(FaucetError::TickerTooLong);
    }
    let buffer = pad_ticker(&name);
    let length = name.len() as u8;
    let mint = match derive_address(mint_tag_bytes(), name.clone(), program_id) {
        Ok(found) => found,
        Err(e) => {
            return Err(e);
        },
    };
    let authority = match derive_address(mint_authority_tag_bytes(), name, program_id) {
        Ok(found) => found,
        Err(e) => {
            return Err(e);
        },
    };
    if mint.address != accounts.mint || authority.address != accounts.mint_authority {
        return Err(FaucetError::AccountMismatch);
    }
    mint_authority.mint = accounts.mint;
    mint_authority.bump = authority.bump;
    mint_authority.is_initialized = true;
    mint_authority.decimals = decimals;
    mint_authority.ticker_len = length;
    mint_authority.ticker = buffer;
    Ok(MintRecord { decimals, supply: 0, authority: accounts.mint_authority })
}

/// Why an issuance is refused authorization, if it is. The checks come in this order: the
/// record is usable, both addresses derive from its stored ticker, the accounts and the
/// record agree with the derived addresses, the destination holds the record's asset.
pub open spec fn issuance_error(
    program_id: Seq<u8>,
    accounts: AirdropSpl,
    record: MintData,
    destination_mint: Seq<u8>,
) -> Option<FaucetError> {
    let name = record.stored_ticker();
    let mint = derived(mint_tag(), name, program_id);
    let authority = derived(mint_authority_tag(), name, program_id);
    if !record.usable() {
        Some(FaucetError::NotInitialized)
    } else if mint is None || authority is None {
        Some(FaucetError::DerivationFailure)
    } else if mint.unwrap().0 != accounts.mint@ || authority.unwrap().0
        != accounts.mint_authority@ || authority.unwrap().1 != record.bump || record.mint@
        != accounts.mint@ {
        Some(FaucetError::AccountMismatch)
    } else if destination_mint != record.mint@ {
        Some(FaucetError::AssetMismatch)
    } else {
        None
    }
}

/// Why an issuance fails on the ledger's records, if it does: what `issuance_error` says,
/// then a mint record that another authority governs, then a supply or a balance that
/// would overflow.
pub open spec fn airdrop_error(
    program_id: Seq<u8>,
    accounts: AirdropSpl,
    record: MintData,
    mint: MintRecord,
    destination: TokenAccount,
    amount: u64,
) -> Option<FaucetError> {
    let refused = issuance_error(program_id, accounts, record, destination.mint@);
    if refused is Some {
        refused
    } else if mint.authority@ != accounts.mint_authority@ {
        Some(FaucetError::AccountMismatch)
    } else if mint.supply + amount > u64::MAX || destination.amount + amount > u64::MAX {
        Some(FaucetError::NumericOverflow)
    } else {
        None
    }
}

/// What an accepted issuance does to the mint and to the destination.
pub open spec fn issued(
    mint: MintRecord,
    destination: TokenAccount,
    amount: u64,
    mint_after: MintRecord,
    destination_after: TokenAccount,
) -> bool {
    &&& mint.supply + amount <= u64::MAX
    &&& destination.amount + amount <= u64::MAX
    &&& mint_after == (MintRecord { supply: (mint.supply + amount) as u64, ..mint })
    &&& destination_after == (TokenAccount {
        amount: (destination.amount + amount) as u64,
        ..destination
    })
}

/// Decides whether an issuance may go ahead, and with which seeds the program signs it.
/// `destination_mint` is the asset that the destination account declares.
pub fn authorize_airdrop(
    program_id: &Address,
    accounts: &AirdropSpl,
    mint_authority: &MintData,
    destination_mint: &Address,
    amount: u64,
) -> (r: Result<MintTo, FaucetError>)
    ensures
        match r {
            Ok(action) => {
                &&& issuance_error(program_id@, *accounts, *mint_authority, destination_mint@)
                    is None
                &&& action.mint == accounts.mint
                &&& action.to == accounts.destination
                &&& action.authority == accounts.mint_authority
                &&& action.amount == amount
                &&& action.seeds() == signing_seeds(
                    mint_authority.stored_ticker(),
                    mint_authority.bump,
                )
            },
            Err(e) => issuance_error(program_id@, *accounts, *mint_authority, destination_mint@)
                == Some(e),
        },
{
    if !mint_authority.is_initialized {
        return Err(FaucetError::NotInitialized);
    }
    let name = match mint_authority.ticker_bytes() {
        Some(bytes) => bytes,
        None => {
            return Err(FaucetError::NotInitialized);
        },
    };
    let mint = match derive_address(mint_tag_bytes(), name.clone(), program_id) {
        Ok(found) => found,
        Err(e) => {
            return Err(e);
        },
    };
    let authority = match derive_address(mint_authority_tag_bytes(), name.clone(), program_id) {
        Ok(found) => found,
        Err(e) => {
            return Err(e);
        },
    };
    if mint.address != accounts.mint || authority.address != accounts.mint_authority
        || authority.bump != mint_authority.bump || mint_authority.mint != accounts.mint {
        return Err(FaucetError::AccountMismatch);
    }
    if *destination_mint != mint_authority.mint {
        return Err(FaucetError::AssetMismatch);
    }
    let mut bump_seed: Vec<u8> = Vec::new();
    bump_seed.push(mint_authority.bump);
    let mut signer_seeds: Vec<Vec<u8>> = Vec::new();
    signer_seeds.push(mint_authority_tag_bytes());
    signer_seeds.push(name);
    signer_seeds.push(bump_seed);
    let action = MintTo {
        mint: accounts.mint,
        to: accounts.destination,
        authority: accounts.mint_authority,
        amount,
        signer_seeds,
    };
    assert(action.seeds() =~= signing_seeds(mint_authority.stored_ticker(), mint_authority.bump));
    Ok(action)
}

/// Issues `amount` of the asset to the destination: authorizes the call, then raises the
/// mint's supply and the destination's balance together. A rejected call changes neither.
pub fn airdrop_spl(
    program_id: &Address,
    accounts: &AirdropSpl,
    mint_authority: &MintData,
    mint: &mut MintRecord,
    destination: &mut TokenAccount,
    amount: u64,
) -> (r: Result<(), FaucetError>)
    ensures
        match r {
            Ok(_) => {
                &&& airdrop_error(
                    program_id@,
                    *accounts,
                    *mint_authority,
                    *old(mint),
                    *old(destination),
                    amount,
                ) is None
                &&& issued(
                    *old(mint),
                    *old(destination),
                    amount,
                    *final(mint),
                    *final(destination),
                )
            },
            Err(e) => {
                &&& airdrop_error(
                    program_id@,
                    *accounts,
                    *mint_authority,
                    *old(mint),
                    *old(destination),
                    amount,
                ) == Some(e)
                &&& *final(mint) == *old(mint)
                &&& *final(destination) == *old(destination)
            },
        },
{
    match authorize_airdrop(program_id, accounts, mint_authority, &destination.mint, amount) {
        Ok(_) => {},
        Err(e) => {
            return Err(e);
        },
    }
    if mint.authority != accounts.mint_authority {
        return Err(FaucetError::AccountMismatch);
    }
    let supply = match mint.supply.checked_add(amount) {
        Some(sum) => sum,
        None => {
            return Err(FaucetError::NumericOverflow);
        },
    };
    let balance = match destination.amount.checked_add(amount) {
        Some(sum) => sum,
        None => {
            return Err(FaucetError::NumericOverflow);
        },
    };
    mint.supply = supply;
    destination.amount = balance;
    Ok(())
}

/// The accounts of an issuance for the ticker that a registration call named.
pub open spec fn issuance_accounts(
    registration: CreateMint,
    destination: Address,
) -> AirdropSpl {
    AirdropSpl {
        mint: registration.mint,
        mint_authority: registration.mint_authority,
        destination,
        token_program: registration.token_program,
    }
}

/// A ticker registers once: on a record that a registration has written, every further
/// registration is rejected as already initialized, whatever it asks for.
pub proof fn lemma_registration_happens_once(
    program_id: Seq<u8>,
    accounts: CreateMint,
    ticker: Seq<char>,
    decimals: u8,
    record: MintData,
    later_program_id: Seq<u8>,
    later_accounts: CreateMint,
    later_ticker: Seq<char>,
)
    requires
        registered(program_id, accounts, ticker, decimals, record),
    ensures
        registration_error(later_program_id, later_accounts, record, later_ticker) == Some(
            FaucetError::AlreadyInitialized,
        ),
{
}

/// A record that an accepted registration wrote stores the normalized ticker and is usable.
pub proof fn lemma_registered_record_is_usable(
    program_id: Seq<u8>,
    accounts: CreateMint,
    before: MintData,
    ticker: Seq<char>,
    decimals: u8,
    record: MintData,
)
    requires
        registration_error(program_id, accounts, before, ticker) is None,
        registered(program_id, accounts, ticker, decimals, record),
    ensures
        record.usable(),
        record.stored_ticker() == normalized(ticker),
{
}

/// After an accepted registration, an issuance on the same mint and authority is rejected
/// only for its destination or its amount: with the asset mismatch where the destination
/// holds another asset, with the overflow where supply or balance would leave 64 bits.
pub proof fn lemma_issuance_follows_registration(
    program_id: Seq<u8>,
    accounts: CreateMint,
    before: MintData,
    ticker: Seq<char>,
    decimals: u8,
    record: MintData,
    mint: MintRecord,
    destination_address: Address,
    destination: TokenAccount,
    amount: u64,
)
    requires
        registration_error(program_id, accounts, before, ticker) is None,
        registered(program_id, accounts, ticker, decimals, record),
        mint.authority == accounts.mint_authority,
    ensures
        airdrop_error(
            program_id,
            issuance_accounts(accounts, destination_address),
            record,
            mint,
            destination,
            amount,
        ) == if destination.mint@ != accounts.mint@ {
            Some(FaucetError::AssetMismatch)
        } else if mint.supply + amount > u64::MAX || destination.amount + amount > u64::MAX {
            Some(FaucetError::NumericOverflow)
        } else {
            None
        },
{
    lemma_registered_record_is_usable(program_id, accounts, before, ticker, decimals, record);
}

/// No issuance goes through on a record that was never initialized.
pub proof fn lemma_unregistered_never_issues(
    program_id: Seq<u8>,
    accounts: AirdropSpl,
    record: MintData,
    mint: MintRecord,
    destination: TokenAccount,
    amount: u64,
)
    requires
        !record.is_initialized,
    ensures
        airdrop_error(program_id, accounts, record, mint, destination, amount) == Some(
            FaucetError::NotInitialized,
        ),
{
}

/// Issuance adds up: two accepted issuances in a row raise supply and balance by the sum
/// of their amounts, and the second is accepted on the same grounds as the first.
pub proof fn lemma_issuance_is_additive(
    program_id: Seq<u8>,
    accounts: AirdropSpl,
    record: MintData,
    mint: MintRecord,
    destination: TokenAccount,
    first: u64,
    second: u64,
    mint_between: MintRecord,
    destination_between: TokenAccount,
    mint_after: MintRecord,
    destination_after: TokenAccount,
)
    requires
        airdrop_error(program_id, accounts, record, mint, destination, first) is None,
        issued(mint, destination, first, mint_between, destination_between),
        issued(mint_between, destination_between, second, mint_after, destination_after),
    ensures
        airdrop_error(
            program_id,
            accounts,
            record,
            mint_between,
            destination_between,
            second,
        ) is None,
        mint_after.supply == mint.supply + first + second,
        destination_after.amount == destination.amount + first + second,
        mint_after.decimals == mint.decimals,
        mint_after.authority == mint.authority,
        destination_after.mint == destination.mint,
{
}

} // verus!
