//! A token faucet for a test network: any caller may register a ticker and mint its
//! asset. Addresses are derived from the ticker, and the program signs for the authority
//! that it derived, so no private key ever authorizes a mint.

pub mod address;
pub mod bytes;
pub mod codec;
pub mod derivation;
pub mod error;
pub mod faucet;
pub mod instruction;
pub mod record;

pub use crate::address::Address;
pub use crate::derivation::{get_mint_address, get_mint_authority_address};
pub use crate::error::FaucetError;
pub use crate::faucet::{airdrop_spl, create_mint, AirdropSpl, CreateMint};
pub use crate::instruction::{
    airdrop_spl_with_mint_pdas_ix, airdrop_spl_with_ticker_ix, create_mint_ix, AccountMeta,
    Instruction,
};
pub use crate::record::{MintData, MintRecord, TokenAccount};
