use crate::address::{
    associated_token_program_bytes, associated_token_program_id, token_program_bytes,
    token_program_id, Address,
};
use crate::error::FaucetError;
use anchor_lang::prelude::Pubkey;
use vstd::prelude::*;
use vstd::slice::slice_to_vec;
use vstd::utf8::encode_utf8;

verus! {

/// What `Pubkey::try_find_program_address` returns for a list of seeds and a program
/// address: the first address off the curve that the bump seeds 255, 254, .. give, with
/// that bump seed, or `None` where there is none.
pub uninterp spec fn program_address(seeds: Seq<Seq<u8>>, program_id: Seq<u8>) -> Option<
    (Seq<u8>, u8),
>;

/// What `str::to_lowercase` returns.
pub uninterp spec fn lowercase(s: Seq<char>) -> Seq<char>;

/// The byte strings that a list of seeds holds.
pub open spec fn seed_bytes(seeds: Seq<Vec<u8>>) -> Seq<Seq<u8>> {
    Seq::new(seeds.len(), |i: int| seeds[i]@)
}

/// Calls `Pubkey::try_find_program_address`. Trusted: the call is a function of the seeds'
/// bytes and the program's bytes alone, named `program_address`.
#[verifier::external_body]
pub(crate) fn try_find_program_address(seeds: &Vec<Vec<u8>>, program_id: &Address) -> (r: Option<
    (Address, u8),
>)
    ensures
        match r {
            Some((address, bump)) => program_address(seed_bytes(seeds@), program_id@) == Some(
                (address@, bump),
            ),
            None => program_address(seed_bytes(seeds@), program_id@) is None,
        },
{
    let mut slices: Vec<&[u8]> = Vec::new();
    for seed in seeds.iter() {
        slices.push(seed.as_slice());
    }
    match Pubkey::try_find_program_address(&slices, &Pubkey::new_from_array(program_id.bytes)) {
        Some((key, bump)) => Some((Address { bytes: key.to_bytes() }, bump)),
        None => None,
    }
}

/// Calls `str::to_lowercase`. Trusted: the result is a function of the characters alone,
/// named `lowercase`.
#[verifier::external_body]
pub(crate) fn to_lowercase(s: &str) -> (r: String)
    ensures
        r@ == lowercase(s@),
{
    s.to_lowercase()
}

/// Seed that marks the address of a ticker's mint: the ASCII bytes of `mint`.
pub open spec fn mint_tag() -> Seq<u8> {
    seq![109u8, 105, 110, 116]
}

/// Seed that marks the address of a ticker's authority record: the ASCII bytes of
/// `mint-authority`.
pub open spec fn mint_authority_tag() -> Seq<u8> {
    seq![109u8, 105, 110, 116, 45, 97, 117, 116, 104, 111, 114, 105, 116, 121]
}

/// The canonical bytes of a ticker: its lowercase form in UTF-8.
pub open spec fn normalized(ticker: Seq<char>) -> Seq<u8> {
    encode_utf8(lowercase(ticker))
}

/// Address and bump seed that a domain tag and a normalized ticker derive under a program.
pub open spec fn derived(tag: Seq<u8>, ticker: Seq<u8>, program_id: Seq<u8>) -> Option<
    (Seq<u8>, u8),
> {
    program_address(seq![tag, ticker], program_id)
}

/// Address of the token account that a wallet holds for a mint.
pub open spec fn associated_token_address(wallet: Seq<u8>, mint: Seq<u8>) -> Option<(Seq<u8>, u8)> {
    program_address(seq![wallet, token_program_bytes(), mint], associated_token_program_bytes())
}

/// A derived address with the bump seed that produced it.
#[derive(Clone, Copy, Debug, PartialEq, Eq)]
pub struct DerivedAddress {
    pub address: Address,
    pub bump: u8,
}

/// The seed `mint`.
pub fn mint_tag_bytes() -> (r: Vec<u8>)
    ensures
        r@ == mint_tag(),
{
    let r: Vec<u8> = vec![109u8, 105, 110, 116];
    r
}

/// The seed `mint-authority`.
pub fn mint_authority_tag_bytes() -> (r: Vec<u8>)
    ensures
        r@ == mint_authority_tag(),
{
    let r: Vec<u8> = vec![109u8, 105, 110, 116, 45, 97, 117, 116, 104, 111, 114, 105, 116, 121];
    r
}

/// Lowercases a ticker and returns its bytes.
pub fn normalize(ticker: &str) -> (r: Vec<u8>)
    ensures
        r@ == normalized(ticker@),
{
    let lower = to_lowercase(ticker);
    slice_to_vec(lower.as_str().as_bytes())
}

/// Derives the address for a domain tag and a normalized ticker under a program.
pub fn derive_address(tag: Vec<u8>, ticker: Vec<u8>, program_id: &Address) -> (r: Result<
    DerivedAddress,
    FaucetError,
>)
    ensures
        match r {
            Ok(d) => derived(tag@, ticker@, program_id@) == Some((d.address@, d.bump)),
            Err(e) => e == FaucetError::DerivationFailure && derived(tag@, ticker@, program_id@)
                is None,
        },
{
    let ghost tag_seq = tag@;
    let ghost ticker_seq = ticker@;
    let mut seeds: Vec<Vec<u8>> = Vec::new();
    seeds.push(tag);
    seeds.push(ticker);
    assert(seed_bytes(seeds@) =~= seq![tag_seq, ticker_seq]);
    match try_find_program_address(&seeds, program_id) {
        Some((address, bump)) => Ok(DerivedAddress { address, bump }),
        None => Err(FaucetError::DerivationFailure),
    }
}

/// Address and bump seed of the mint that a ticker names under a program.
pub open spec fn mint_address_of(ticker: Seq<char>, program_id: Seq<u8>) -> Option<(Seq<u8>, u8)> {
    derived(mint_tag(), normalized(ticker), program_id)
}

/// Address and bump seed of the authority record that a ticker names under a program.
pub open spec fn mint_authority_address_of(ticker: Seq<char>, program_id: Seq<u8>) -> Option<
    (Seq<u8>, u8),
> {
    derived(mint_authority_tag(), normalized(ticker), program_id)
}

/// Address of a ticker's mint under a program; the ticker is lowercased first.
pub fn get_mint_address(program_id: &Address, ticker: &str) -> (r: Result<Address, FaucetError>)
    ensures
        match r {
            Ok(address) => mint_address_of(ticker@, program_id@) matches Some(found)
                && found.0 == address@,
            Err(e) => e == FaucetError::DerivationFailure && mint_address_of(
                ticker@,
                program_id@,
            ) is None,
        },
{
    match derive_address(mint_tag_bytes(), normalize(ticker), program_id) {
        Ok(found) => Ok(found.address),
        Err(e) => Err(e),
    }
}

/// Address of a ticker's authority record under a program; the ticker is lowercased first.
pub fn get_mint_authority_address(program_id: &Address, ticker: &str) -> (r: Result<
    Address,
    FaucetError,
>)
    ensures
        match r {
            Ok(address) => mint_authority_address_of(ticker@, program_id@) matches Some(found)
                && found.0 == address@,
            Err(e) => e == FaucetError::DerivationFailure && mint_authority_address_of(
                ticker@,
                program_id@,
            ) is None,
        },
{
    match derive_address(mint_authority_tag_bytes(), normalize(ticker), program_id) {
        Ok(found) => Ok(found.address),
        Err(e) => Err(e),
    }
}

/// Address of the token account that `wallet` holds for `mint`: derived under the
/// associated-token-account program from the wallet, the token program and the mint. A
/// search that finds no bump seed is an error here, where
/// `spl_associated_token_account::get_associated_token_address` would panic.
pub fn get_associated_token_address(wallet: &Address, mint: &Address) -> (r: Result<
    Address,
    FaucetError,
>)
    ensures
        match r {
            Ok(address) => associated_token_address(wallet@, mint@) matches Some(found)
                && found.0 == address@,
            Err(e) => e == FaucetError::DerivationFailure && associated_token_address(
                wallet@,
                mint@,
            ) is None,
        },
{
    let mut seeds: Vec<Vec<u8>> = Vec::new();
    seeds.push(wallet.to_vec());
    seeds.push(token_program_id().to_vec());
    seeds.push(mint.to_vec());
    assert(seed_bytes(seeds@) =~= seq![wallet@, token_program_bytes(), mint@]);
    match try_find_program_address(&seeds, &associated_token_program_id()) {
        Some((address, _)) => Ok(address),
        None => Err(FaucetError::DerivationFailure),
    }
}

/// Tickers that differ only in case name the same mint and the same authority record.
pub proof fn lemma_case_insensitive(first: Seq<char>, second: Seq<char>, program_id: Seq<u8>)
    requires
        lowercase(first) == lowercase(second),
    ensures
        mint_address_of(first, program_id) == mint_address_of(second, program_id),
        mint_authority_address_of(first, program_id) == mint_authority_address_of(
            second,
            program_id,
        ),
{
}

} // verus!
