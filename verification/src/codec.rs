use crate::bytes::{
    le_bytes, le_value, lemma_le_bytes_len, lemma_le_bytes_of_value, lemma_le_value_bound,
    lemma_le_value_of_bytes, lemma_pow256_eight, put_le, read_le,
};
use crate::error::FaucetError;
use vstd::prelude::*;

verus! {

/// How a payload lays out the ticker of a registration.
#[derive(Clone, Copy, Debug, PartialEq, Eq, Structural)]
pub enum WireStyle {
    /// The ticker follows its length, four bytes little-endian.
    Structured,
    /// The ticker is what stands between the opcode and the last field.
    Raw,
}

/// Opcode of a registration.
pub const OP_CREATE_MINT: u8 = 0;

/// Opcode of an issuance.
pub const OP_AIRDROP_SPL: u8 = 1;

/// One of the program's two operations with its arguments.
#[derive(Clone, Debug, PartialEq, Eq)]
pub enum Operation {
    /// Register a ticker, given by its normalized bytes.
    CreateMint { ticker: Vec<u8>, decimals: u8 },
    /// Issue an amount of the asset whose authority record the call names.
    AirdropSpl { amount: u64 },
}

/// An operation as a mathematical value.
pub enum OperationView {
    CreateMint { ticker: Seq<u8>, decimals: u8 },
    AirdropSpl { amount: u64 },
}

impl View for Operation {
    type V = OperationView;

    open spec fn view(&self) -> OperationView {
        match self {
            Operation::CreateMint { ticker, decimals } => OperationView::CreateMint {
                ticker: ticker@,
                decimals: *decimals,
            },
            Operation::AirdropSpl { amount } => OperationView::AirdropSpl { amount: *amount },
        }
    }
}

impl OperationView {
    /// The byte that opens the operation's payload.
    pub open spec fn opcode(self) -> u8 {
        match self {
            OperationView::CreateMint { .. } => 0,
            OperationView::AirdropSpl { .. } => 1,
        }
    }

    /// The ticker's length fits the four bytes that the structured style gives it.
    pub open spec fn encodable(self) -> bool {
        match self {
            OperationView::CreateMint { ticker, .. } => ticker.len() <= u32::MAX,
            OperationView::AirdropSpl { .. } => true,
        }
    }
}

/// The payload of an operation: the opcode, then the ticker where there is one, then the
/// numeric field, little-endian.
pub open spec fn encoding(style: WireStyle, operation: OperationView) -> Seq<u8> {
    match operation {
        OperationView::CreateMint { ticker, decimals } => match style {
            WireStyle::Structured => seq![0u8] + le_bytes(ticker.len(), 4) + ticker
                + seq![decimals],
            WireStyle::Raw => seq![0u8] + ticker + seq![decimals],
        },
        OperationView::AirdropSpl { amount } => seq![1u8] + le_bytes(amount as nat, 8),
    }
}

/// Whether a ticker in the payload's style fills exactly the bytes from index 1 up to the
/// last `field` bytes.
pub open spec fn ticker_fits(style: WireStyle, payload: Seq<u8>, field: int) -> bool {
    match style {
        WireStyle::Structured => payload.len() >= 5 + field && le_value(payload.subrange(1, 5))
            == payload.len() - 5 - field,
        WireStyle::Raw => payload.len() >= 1 + field,
    }
}

/// Where the ticker starts in a payload of the style.
pub open spec fn ticker_start(style: WireStyle) -> int {
    match style {
        WireStyle::Structured => 5,
        WireStyle::Raw => 1,
    }
}

/// The operation that a payload spells, if it spells one. An issuance may carry a ticker
/// before its amount, as older callers send it; the ticker is not part of the operation.
pub open spec fn decoding(style: WireStyle, payload: Seq<u8>) -> Option<OperationView> {
    let len = payload.len() as int;
    if len == 0 {
        None
    } else if payload[0] == 0 {
        if ticker_fits(style, payload, 1) {
            Some(
                OperationView::CreateMint {
                    ticker: payload.subrange(ticker_start(style), len - 1),
                    decimals: payload[len - 1],
                },
            )
        } else {
            None
        }
    } else if payload[0] == 1 {
        if len == 9 || ticker_fits(style, payload, 8) {
            Some(OperationView::AirdropSpl { amount: le_value(payload.subrange(len - 8, len)) as u64 })
        } else {
            None
        }
    } else {
        None
    }
}

impl Operation {
    /// The byte that opens the operation's payload.
    pub fn opcode(&self) -> (r: u8)
        ensures
            r == self@.opcode(),
    {
        match self {
            Operation::CreateMint { .. } => OP_CREATE_MINT,
            Operation::AirdropSpl { .. } => OP_AIRDROP_SPL,
        }
    }
}

/// Appends all bytes of `source` to `out`.
fn put_all(out: &mut Vec<u8>, source: &Vec<u8>)
    ensures
        final(out)@ == old(out)@ + source@,
{
    let ghost start = out@;
    let mut i: usize = 0;
    while i < source.len()
        invariant
            i <= source.len(),
            out@ =~= start + source@.subrange(0, i as int),
        decreases source.len() - i,
    {
        out.push(source[i]);
        i += 1;
    }
}

/// Copies the bytes of `source` from `start` up to `end`.
fn copy_range(source: &Vec<u8>, start: usize, end: usize) -> (r: Vec<u8>)
    requires
        start <= end <= source.len(),
    ensures
        r@ == source@.subrange(start as int, end as int),
{
    let mut out: Vec<u8> = Vec::new();
    let mut i: usize = start;
    while i < end
        invariant
            start <= i <= end <= source.len(),
            out@ =~= source@.subrange(start as int, i as int),
        decreases end - i,
    {
        out.push(source[i]);
        i += 1;
    }
    out
}

/// Encodes an operation as a payload in the given style.
pub fn encode(style: WireStyle, operation: &Operation) -> (r: Vec<u8>)
    requires
        operation@.encodable(),
    ensures
        r@ == encoding(style, operation@),
{
    let mut out: Vec<u8> = Vec::new();
    out.push(operation.opcode());
    match operation {
        Operation::CreateMint { ticker, decimals } => {
            match style {
                WireStyle::Structured => {
                    put_le(&mut out, ticker.len() as u64, 4);
                },
                WireStyle::Raw => {},
            }
            put_all(&mut out, ticker);
            out.push(*decimals);
        },
        Operation::AirdropSpl { amount } => {
            put_le(&mut out, *amount, 8);
        },
    }
    out
}

/// Decodes a payload in the given style.
pub fn decode(style: WireStyle, payload: &Vec<u8>) -> (r: Result<Operation, FaucetError>)
    ensures
        match r {
            Ok(operation) => decoding(style, payload@) == Some(operation@),
            Err(e) => e == FaucetError::MalformedPayload && decoding(style, payload@) is None,
        },
{
    let len = payload.len();
    if len == 0 {
        return Err(FaucetError::MalformedPayload);
    }
    let opcode = payload[0];
    if opcode != OP_CREATE_MINT && opcode != OP_AIRDROP_SPL {
        return Err(FaucetError::MalformedPayload);
    }
    let field: usize = if opcode == OP_CREATE_MINT {
        1
    } else {
        8
    };
    let canonical_issuance = opcode == OP_AIRDROP_SPL && len == 9;
    if !canonical_issuance {
        let fits = match style {
            WireStyle::Structured => len >= 5 + field && read_le(payload, 1, 4) == (len - 5
                - field) as u64,
            WireStyle::Raw => len >= 1 + field,
        };
        if !fits {
            return Err(FaucetError::MalformedPayload);
        }
    }
    if opcode == OP_CREATE_MINT {
        let start: usize = match style {
            WireStyle::Structured => 5,
            WireStyle::Raw => 1,
        };
        Ok(
            Operation::CreateMint {
                ticker: copy_range(payload, start, len - 1),
                decimals: payload[len - 1],
            },
        )
    } else {
        Ok(Operation::AirdropSpl { amount: read_le(payload, len - 8, 8) })
    }
}

/// Decoding undoes encoding: the payload of an operation spells that operation, opcode,
/// ticker bytes and numeric field alike, in either style.
pub proof fn lemma_decoding_undoes_encoding(style: WireStyle, operation: OperationView)
    requires
        operation.encodable(),
    ensures
        decoding(style, encoding(style, operation)) == Some(operation),
{
    let payload = encoding(style, operation);
    lemma_pow256_eight();
    match operation {
        OperationView::CreateMint { ticker, decimals } => {
            lemma_le_bytes_len(ticker.len(), 4);
            lemma_le_value_of_bytes(ticker.len(), 4);
            let len = payload.len() as int;
            match style {
                WireStyle::Structured => {
                    assert(payload.subrange(1, 5) =~= le_bytes(ticker.len(), 4));
                    assert(payload.subrange(5, len - 1) =~= ticker);
                },
                WireStyle::Raw => {
                    assert(payload.subrange(1, len - 1) =~= ticker);
                },
            }
        },
        OperationView::AirdropSpl { amount } => {
            lemma_le_bytes_len(amount as nat, 8);
            lemma_le_value_of_bytes(amount as nat, 8);
            assert(payload.subrange(1, 9) =~= le_bytes(amount as nat, 8));
        },
    }
}

/// Encoding undoes decoding on the payloads that the encoder writes: a registration, or an
/// issuance of nine bytes, is the one payload of the operation it spells.
pub proof fn lemma_encoding_undoes_decoding(style: WireStyle, payload: Seq<u8>)
    requires
        decoding(style, payload) is Some,
        payload[0] == 0 || payload.len() == 9,
    ensures
        encoding(style, decoding(style, payload).unwrap()) == payload,
{
    if payload[0] == 0 {
        if style is Structured {
            lemma_le_bytes_of_value(payload.subrange(1, 5));
        }
    } else {
        let field = payload.subrange(1, 9);
        lemma_le_bytes_of_value(field);
        lemma_le_value_bound(field);
        lemma_pow256_eight();
    }
}

/// Both styles spell an issuance alike, and a registration with the same arguments.
pub proof fn lemma_styles_agree(operation: OperationView)
    requires
        operation.encodable(),
    ensures
        decoding(WireStyle::Structured, encoding(WireStyle::Structured, operation)) == decoding(
            WireStyle::Raw,
            encoding(WireStyle::Raw, operation),
        ),
{
    lemma_decoding_undoes_encoding(WireStyle::Structured, operation);
    lemma_decoding_undoes_encoding(WireStyle::Raw, operation);
}

} // verus!
