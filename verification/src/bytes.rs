use vstd::prelude::*;

verus! {

/// 256 to the power of `width`.
pub open spec fn pow256(width: nat) -> nat
    decreases width,
{
    if width == 0 {
        1
    } else {
        256 * pow256((width - 1) as nat)
    }
}

/// The `width` low bytes of `value`, least significant first.
pub open spec fn le_bytes(value: nat, width: nat) -> Seq<u8>
    decreases width,
{
    if width == 0 {
        Seq::empty()
    } else {
        seq![(value % 256) as u8] + le_bytes(value / 256, (width - 1) as nat)
    }
}

/// The number that bytes spell, least significant first.
pub open spec fn le_value(bytes: Seq<u8>) -> nat
    decreases bytes.len(),
{
    if bytes.len() == 0 {
        0
    } else {
        bytes[0] as nat + 256 * le_value(bytes.drop_first())
    }
}

pub proof fn lemma_pow256_eight()
    ensures
        pow256(4) == 0x1_0000_0000,
        pow256(8) == 0x1_0000_0000_0000_0000,
{
    reveal_with_fuel(pow256, 9);
}

pub proof fn lemma_le_bytes_len(value: nat, width: nat)
    ensures
        le_bytes(value, width).len() == width,
    decreases width,
{
    if width > 0 {
        lemma_le_bytes_len(value / 256, (width - 1) as nat);
    }
}

/// Bytes spell a number below 256 to the power of their count.
pub proof fn lemma_le_value_bound(bytes: Seq<u8>)
    ensures
        le_value(bytes) < pow256(bytes.len()),
    decreases bytes.len(),
{
    if bytes.len() > 0 {
        lemma_le_value_bound(bytes.drop_first());
    }
}

/// Reading back what was written gives the number, where it fits the width.
pub proof fn lemma_le_value_of_bytes(value: nat, width: nat)
    requires
        value < pow256(width),
    ensures
        le_value(le_bytes(value, width)) == value,
    decreases width,
{
    if width > 0 {
        let rest = le_bytes(value / 256, (width - 1) as nat);
        let all = le_bytes(value, width);
        assert(all.drop_first() =~= rest);
        assert(value / 256 < pow256((width - 1) as nat)) by (nonlinear_arith)
            requires
                value < 256 * pow256((width - 1) as nat),
        ;
        lemma_le_value_of_bytes(value / 256, (width - 1) as nat);
    }
}

/// Writing what was read gives the bytes back.
pub proof fn lemma_le_bytes_of_value(bytes: Seq<u8>)
    ensures
        le_bytes(le_value(bytes), bytes.len()) == bytes,
    decreases bytes.len(),
{
    if bytes.len() > 0 {
        let rest = bytes.drop_first();
        lemma_le_bytes_of_value(rest);
        let value = le_value(bytes);
        assert(value % 256 == bytes[0] as nat && value / 256 == le_value(rest))
            by (nonlinear_arith)
            requires
                value == bytes[0] as nat + 256 * le_value(rest),
                bytes[0] < 256,
        ;
    }
}

/// Appends the `width` low bytes of `value`, least significant first.
pub fn put_le(out: &mut Vec<u8>, value: u64, width: usize)
    requires
        width <= 8,
    ensures
        final(out)@ == old(out)@ + le_bytes(value as nat, width as nat),
{
    let ghost start = out@;
    let ghost full = le_bytes(value as nat, width as nat);
    proof {
        lemma_le_bytes_len(value as nat, width as nat);
    }
    let mut rest: u64 = value;
    let mut i: usize = 0;
    while i < width
        invariant
            i <= width <= 8,
            full.len() == width,
            out@ =~= start + full.subrange(0, i as int),
            full.subrange(i as int, width as int) =~= le_bytes(rest as nat, (width - i) as nat),
        decreases width - i,
    {
        let byte: u8 = (rest % 256) as u8;
        proof {
            let here = le_bytes(rest as nat, (width - i) as nat);
            let tail = le_bytes((rest / 256) as nat, (width - i - 1) as nat);
            assert(full[i as int] == here[0]);
            assert(here.drop_first() =~= tail);
        }
        out.push(byte);
        rest = rest / 256;
        i += 1;
    }
}

/// Reads `width` bytes from `start` as a number, least significant first.
pub fn read_le(bytes: &Vec<u8>, start: usize, width: usize) -> (r: u64)
    requires
        width <= 8,
        start + width <= bytes.len(),
    ensures
        r == le_value(bytes@.subrange(start as int, start + width)),
{
    let end = start + width;
    let mut value: u64 = 0;
    let mut i: usize = width;
    while i > 0
        invariant
            i <= width <= 8,
            end == start + width,
            end <= bytes.len(),
            value == le_value(bytes@.subrange(start + i, end as int)),
            value < pow256((width - i) as nat),
        decreases i,
    {
        proof {
            let longer = bytes@.subrange(start + i - 1, end as int);
            assert(longer.drop_first() =~= bytes@.subrange(start + i, end as int));
            reveal_with_fuel(pow256, 9);
        }
        i -= 1;
        value = value * 256 + bytes[start + i] as u64;
    }
    value
}

} // verus!
