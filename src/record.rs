use vstd::prelude::*;

verus! {

/// The four bytes of `x`, least significant first.
pub open spec fn u32_le_spec(x: u32) -> Seq<u8> {
    seq![
        (x % 256) as u8,
        (x / 256 % 256) as u8,
        (x / 65536 % 256) as u8,
        (x / 16777216 % 256) as u8,
    ]
}

/// The values of `s` as bytes, each reduced modulo 256.
pub open spec fn values_as_bytes(s: Seq<usize>) -> Seq<u8> {
    Seq::new(s.len(), |k: int| (s[k] % 256) as u8)
}

/// The record of a session: move count, elapsed seconds and score as four
/// little-endian bytes each, then 1 if the session ended and 0 if not, then
/// one byte per matched value.
pub open spec fn record_spec(
    moves: u32,
    elapsed: u32,
    score: u32,
    ended: bool,
    matched: Seq<usize>,
) -> Seq<u8> {
    u32_le_spec(moves) + u32_le_spec(elapsed) + u32_le_spec(score) + seq![
        if ended {
            1u8
        } else {
            0u8
        },
    ] + values_as_bytes(matched)
}

/// Appends the four little-endian bytes of `x` to `out`.
pub fn push_u32_le(out: &mut Vec<u8>, x: u32)
    ensures
        final(out)@ == old(out)@ + u32_le_spec(x),
{
    out.push((x % 256) as u8);
    out.push((x / 256 % 256) as u8);
    out.push((x / 65536 % 256) as u8);
    out.push((x / 16777216 % 256) as u8);
    assert(final(out)@ =~= old(out)@ + u32_le_spec(x));
}

/// Encodes a session's counters and matched values as a byte record.
pub fn encode_record(
    moves: u32,
    elapsed: u32,
    score: u32,
    ended: bool,
    matched: &Vec<usize>,
) -> (r: Vec<u8>)
    ensures
        r@ == record_spec(moves, elapsed, score, ended, matched@),
{
    let mut out: Vec<u8> = Vec::new();
    push_u32_le(&mut out, moves);
    push_u32_le(&mut out, elapsed);
    push_u32_le(&mut out, score);
    out.push(if ended {
        1u8
    } else {
        0u8
    });
    let ghost head = out@;
    let mut k: usize = 0;
    while k < matched.len()
        invariant
            k <= matched@.len(),
            out@ == head + values_as_bytes(matched@.take(k as int)),
        decreases matched@.len() - k,
    {
        out.push((matched[k] % 256) as u8);
        k = k + 1;
        assert(values_as_bytes(matched@.take(k as int)) =~= values_as_bytes(
            matched@.take(k - 1),
        ).push((matched@[k - 1] % 256) as u8));
        assert(out@ =~= head + values_as_bytes(matched@.take(k as int)));
    }
    assert(matched@.take(k as int) =~= matched@);
    assert(out@ =~= record_spec(moves, elapsed, score, ended, matched@));
    out
}

} // verus!
