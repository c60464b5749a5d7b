use crate::address::{lemma_address_by_bytes, Address};
use vstd::prelude::*;

verus! {

/// Number of bytes that an authority record keeps for its ticker.
pub const TICKER_CAPACITY: usize = 16;

/// The authority record of a ticker. It is written once, at registration, and proves that
/// the address it lives at may mint the ticker's asset.
#[derive(Clone, Copy, Debug, PartialEq, Eq)]
pub struct MintData {
    /// Address of the mint that this record governs.
    pub mint: Address,
    /// Bump seed of the record's own address.
    pub bump: u8,
    pub is_initialized: bool,
    pub decimals: u8,
    /// Number of bytes of `ticker` in use.
    pub ticker_len: u8,
    /// The normalized ticker, followed by zeros.
    pub ticker: [u8; 16],
}

/// The ledger's descriptor of a fungible asset.
#[derive(Clone, Copy, Debug, PartialEq, Eq)]
pub struct MintRecord {
    pub decimals: u8,
    pub supply: u64,
    /// Address that may mint: the asset's authority record.
    pub authority: Address,
}

/// A token account of the ledger: a balance of one asset.
#[derive(Clone, Copy, Debug, PartialEq, Eq)]
pub struct TokenAccount {
    /// Address of the mint whose asset the account holds.
    pub mint: Address,
    pub amount: u64,
}

/// Number of bytes that an authority record takes on the ledger.
pub const RECORD_LEN: usize = 60;

/// The eight bytes that open the ledger account of an authority record.
pub open spec fn record_tag() -> Seq<u8> {
    seq![211u8, 133, 4, 40, 1, 136, 135, 62]
}

/// Whether account data opens with an authority record: the tag, the fields in the order
/// of their declaration, the flag as the byte 0 or 1.
pub open spec fn holds_record(data: Seq<u8>) -> bool {
    data.len() >= RECORD_LEN && data.subrange(0, 8) == record_tag() && data[41] <= 1
}

/// A ticker laid out in a record's buffer: its bytes, then zeros.
pub open spec fn padded(ticker: Seq<u8>) -> Seq<u8> {
    Seq::new(TICKER_CAPACITY as nat, |i: int| if i < ticker.len() { ticker[i] } else { 0u8 })
}

impl MintData {
    /// The record holds a ticker that fits its buffer.
    pub open spec fn well_formed(&self) -> bool {
        self.ticker_len <= TICKER_CAPACITY
    }

    /// The record was written by a registration and can authorize minting.
    pub open spec fn usable(&self) -> bool {
        self.is_initialized && self.well_formed()
    }

    /// The normalized ticker that the record stores.
    pub open spec fn stored_ticker(&self) -> Seq<u8> {
        self.ticker@.subrange(0, self.ticker_len as int)
    }

    /// The record as the ledger stores it.
    pub open spec fn packed(&self) -> Seq<u8> {
        record_tag() + self.mint@ + seq![
            self.bump,
            if self.is_initialized { 1u8 } else { 0u8 },
            self.decimals,
            self.ticker_len,
        ] + self.ticker@
    }

    /// Lays the record out as the ledger stores it.
    pub fn pack(&self) -> (r: Vec<u8>)
        ensures
            r@ == self.packed(),
    {
        let mut out: Vec<u8> = vec![211u8, 133, 4, 40, 1, 136, 135, 62];
        let mut i: usize = 0;
        while i < 32
            invariant
                i <= 32,
                out@ =~= record_tag() + self.mint@.subrange(0, i as int),
            decreases 32 - i,
        {
            out.push(self.mint.bytes[i]);
            i += 1;
        }
        out.push(self.bump);
        out.push(if self.is_initialized { 1 } else { 0 });
        out.push(self.decimals);
        out.push(self.ticker_len);
        let ghost head = out@;
        assert(head =~= record_tag() + self.mint@ + seq![
            self.bump,
            if self.is_initialized { 1u8 } else { 0u8 },
            self.decimals,
            self.ticker_len,
        ]);
        let mut k: usize = 0;
        while k < 16
            invariant
                k <= 16,
                out@ =~= head + self.ticker@.subrange(0, k as int),
            decreases 16 - k,
        {
            out.push(self.ticker[k]);
            k += 1;
        }
        out
    }

    /// Reads the record that account data opens with, if it opens with one.
    pub fn unpack(data: &[u8]) -> (r: Option<MintData>)
        ensures
            match r {
                Some(record) => holds_record(data@) && record.packed() == data@.subrange(
                    0,
                    RECORD_LEN as int,
                ),
                None => !holds_record(data@),
            },
    {
        if data.len() < RECORD_LEN {
            return None;
        }
        if data[0] != 211 || data[1] != 133 || data[2] != 4 || data[3] != 40 || data[4] != 1
            || data[5] != 136 || data[6] != 135 || data[7] != 62 {
            return None;
        }
        assert(data@.subrange(0, 8) =~= record_tag());
        if data[41] > 1 {
            return None;
        }
        let mut mint = [0u8; 32];
        let mut i: usize = 0;
        while i < 32
            invariant
                i <= 32,
                data.len() >= 60,
                forall|j: int| 0 <= j < i ==> mint@[j] == data@[8 + j],
            decreases 32 - i,
        {
            mint[i] = data[8 + i];
            i += 1;
        }
        let mut ticker = [0u8; 16];
        let mut k: usize = 0;
        while k < 16
            invariant
                k <= 16,
                data.len() >= 60,
                forall|j: int| 0 <= j < k ==> ticker@[j] == data@[44 + j],
            decreases 16 - k,
        {
            ticker[k] = data[44 + k];
            k += 1;
        }
        Some(
            MintData {
                mint: Address { bytes: mint },
                bump: data[40],
                is_initialized: data[41] == 1,
                decimals: data[42],
                ticker_len: data[43],
                ticker,
            },
        )
    }

    /// A record slot that no registration has written yet.
    pub fn empty() -> (r: MintData)
        ensures
            !r.is_initialized,
            r.mint@ == Seq::new(32, |i: int| 0u8),
            r.bump == 0,
            r.decimals == 0,
            r.ticker_len == 0,
            r.ticker@ == Seq::new(16, |i: int| 0u8),
    {
        MintData {
            mint: Address { bytes: [0u8; 32] },
            bump: 0,
            is_initialized: false,
            decimals: 0,
            ticker_len: 0,
            ticker: [0u8; 16],
        }
    }

    /// The stored ticker, or `None` where the length byte exceeds the buffer.
    pub fn ticker_bytes(&self) -> (r: Option<Vec<u8>>)
        ensures
            match r {
                Some(bytes) => self.well_formed() && bytes@ == self.stored_ticker(),
                None => !self.well_formed(),
            },
    {
        if self.ticker_len as usize > TICKER_CAPACITY {
            return None;
        }
        let len = self.ticker_len as usize;
        let mut out: Vec<u8> = Vec::new();
        let mut i: usize = 0;
        while i < len
            invariant
                i <= len <= 16,
                len == self.ticker_len,
                out@ == self.ticker@.subrange(0, i as int),
            decreases len - i,
        {
            out.push(self.ticker[i]);
            i += 1;
        }
        Some(out)
    }
}

/// Lays a ticker of at most 16 bytes out in a record's buffer.
pub(crate) fn pad_ticker(ticker: &Vec<u8>) -> (r: [u8; 16])
    requires
        ticker.len() <= 16,
    ensures
        r@ == padded(ticker@),
{
    let mut buffer = [0u8; 16];
    let mut i: usize = 0;
    while i < ticker.len()
        invariant
            i <= ticker.len() <= 16,
            forall|k: int| 0 <= k < i ==> buffer@[k] == ticker@[k],
            forall|k: int| i <= k < 16 ==> buffer@[k] == 0,
        decreases ticker.len() - i,
    {
        buffer[i] = ticker[i];
        i += 1;
    }
    buffer
}

/// A record is read back as it was laid out, whatever follows it in the account.
pub proof fn lemma_packed_holds_record(record: MintData, rest: Seq<u8>)
    ensures
        holds_record(record.packed() + rest),
        (record.packed() + rest).subrange(0, RECORD_LEN as int) == record.packed(),
{
    let data = record.packed() + rest;
    assert(data.subrange(0, 8) =~= record_tag());
}

/// Two records that the ledger stores alike are the same record.
pub proof fn lemma_packed_is_injective(first: MintData, second: MintData)
    requires
        first.packed() == second.packed(),
    ensures
        first == second,
{
    let stored = first.packed();
    assert forall|i: int| 0 <= i < 32 implies first.mint@[i] == second.mint@[i] by {
        assert(stored[8 + i] == second.mint@[i]);
    }
    assert(first.mint@ =~= second.mint@);
    lemma_address_by_bytes(first.mint, second.mint);
    assert(stored[40] == first.bump && stored[40] == second.bump);
    assert(stored[41] == (if second.is_initialized { 1u8 } else { 0u8 }));
    assert(stored[42] == first.decimals && stored[42] == second.decimals);
    assert(stored[43] == first.ticker_len && stored[43] == second.ticker_len);
    assert forall|i: int| 0 <= i < 16 implies first.ticker[i] == second.ticker[i] by {
        assert(stored[44 + i] == second.ticker@[i]);
    }
    assert(first.ticker =~= second.ticker);
}

} // verus!
