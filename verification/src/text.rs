//! Byte-level text building used by diagnostics and snapshots.
use vstd::prelude::*;

verus! {

/// The ASCII decimal representation of `n` (no sign, no leading zeros).
pub open spec fn decimal(n: nat) -> Seq<u8>
    decreases n,
{
    if n < 10 {
        seq![(48 + n) as u8]
    } else {
        decimal(n / 10).push((48 + n % 10) as u8)
    }
}

/// Appends `bytes` to `out`.
pub fn append_bytes(out: &mut Vec<u8>, bytes: &[u8])
    ensures
        final(out)@ == old(out)@ + bytes@,
{
    let mut i: usize = 0;
    while i < bytes.len()
        invariant
            i <= bytes@.len(),
            out@ == old(out)@ + bytes@.subrange(0, i as int),
        decreases bytes@.len() - i,
    {
        out.push(bytes[i]);
        i = i + 1;
        assert(bytes@.subrange(0, i as int) == bytes@.subrange(0, (i - 1) as int).push(
            bytes@[i - 1],
        ));
    }
    assert(bytes@.subrange(0, bytes@.len() as int) == bytes@);
}

/// Appends the decimal representation of `n` to `out`.
pub fn append_decimal(out: &mut Vec<u8>, n: u64)
    ensures
        final(out)@ == old(out)@ + decimal(n as nat),
    decreases n,
{
    if n >= 10 {
        append_decimal(out, n / 10);
        out.push((48 + n % 10) as u8);
        assert(old(out)@ + decimal(n as nat) == old(out)@ + decimal((n / 10) as nat).push(
            (48 + n % 10) as u8,
        ));
    } else {
        out.push((48 + n) as u8);
        assert(old(out)@ + decimal(n as nat) == old(out)@.push((48 + n) as u8));
    }
}

/// Copies `bytes` into a new vector.
pub fn copy_bytes(bytes: &[u8]) -> (out: Vec<u8>)
    ensures
        out@ == bytes@,
{
    let mut out: Vec<u8> = Vec::new();
    append_bytes(&mut out, bytes);
    assert(Seq::<u8>::empty() + bytes@ == bytes@);
    out
}

} // verus!
