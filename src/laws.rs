use vstd::prelude::*;
use crate::instructions::{
    decode, encode, le_bytes, le_u32, CounterInstructions, DecodeError, UpdateArgs,
};

verus! {

/// Reading back the four little-endian bytes of a number gives the number.
pub proof fn le_bytes_read_back(v: u32)
    ensures
        le_u32(le_bytes(v)) == v,
{
    let b0 = v % 0x100;
    let b1 = v / 0x100 % 0x100;
    let b2 = v / 0x1_0000 % 0x100;
    let b3 = v / 0x100_0000;
    assert(b0 + 0x100 * b1 + 0x1_0000 * b2 + 0x100_0000 * b3 == v) by (bit_vector)
        requires
            b0 == v % 0x100,
            b1 == v / 0x100 % 0x100,
            b2 == v / 0x1_0000 % 0x100,
            b3 == v / 0x100_0000,
    ;
}

/// Any four bytes are the little-endian encoding of the number they spell.
pub proof fn le_u32_written_back(b: Seq<u8>)
    requires
        b.len() == 4,
    ensures
        le_bytes(le_u32(b)) == b,
{
    let b0 = b[0] as u32;
    let b1 = b[1] as u32;
    let b2 = b[2] as u32;
    let b3 = b[3] as u32;
    let v: u32 = (b0 + 0x100 * b1 + 0x1_0000 * b2 + 0x100_0000 * b3) as u32;
    assert(v == le_u32(b));
    assert(v % 0x100 == b0 && v / 0x100 % 0x100 == b1 && v / 0x1_0000 % 0x100 == b2
        && v / 0x100_0000 == b3) by (bit_vector)
        requires
            b0 < 0x100,
            b1 < 0x100,
            b2 < 0x100,
            b3 < 0x100,
            v == b0 + 0x100 * b1 + 0x1_0000 * b2 + 0x100_0000 * b3,
    ;
    assert(le_bytes(v) =~= b);
}


/// A tag of 0, 1 or 2 followed by the four little-endian bytes of any `v` decodes
/// to `Increment`, `Decrement` or `Update` with amount `v`.
pub proof fn amount_frames_decode(v: u32)
    ensures
        decode(seq![0u8] + le_bytes(v)) == Ok::<CounterInstructions, DecodeError>(
            CounterInstructions::Increment(UpdateArgs { value: v }),
        ),
        decode(seq![1u8] + le_bytes(v)) == Ok::<CounterInstructions, DecodeError>(
            CounterInstructions::Decrement(UpdateArgs { value: v }),
        ),
        decode(seq![2u8] + le_bytes(v)) == Ok::<CounterInstructions, DecodeError>(
            CounterInstructions::Update(UpdateArgs { value: v }),
        ),
{
    le_bytes_read_back(v);
    assert((seq![0u8] + le_bytes(v)).drop_first() =~= le_bytes(v));
    assert((seq![1u8] + le_bytes(v)).drop_first() =~= le_bytes(v));
    assert((seq![2u8] + le_bytes(v)).drop_first() =~= le_bytes(v));
}

/// A tag above 3 is refused as unknown, whatever follows it.
pub proof fn unknown_tag_refused(tag: u8, rest: Seq<u8>)
    requires
        tag > 3,
    ensures
        decode(seq![tag] + rest) == Err::<CounterInstructions, DecodeError>(
            DecodeError::UnknownDiscriminant(tag),
        ),
{
    assert((seq![tag] + rest)[0] == tag);
}

/// A tag of 0, 1 or 2 followed by fewer than four bytes is a malformed payload.
pub proof fn short_payload_refused(tag: u8, rest: Seq<u8>)
    requires
        tag <= 2,
        rest.len() < 4,
    ensures
        decode(seq![tag] + rest) == Err::<CounterInstructions, DecodeError>(
            DecodeError::MalformedPayload,
        ),
{
    assert((seq![tag] + rest)[0] == tag);
    assert((seq![tag] + rest).drop_first() =~= rest);
}

/// Decoding the encoding of any instruction gives that instruction back.
pub proof fn encode_then_decode(c: CounterInstructions)
    ensures
        decode(encode(c)) == Ok::<CounterInstructions, DecodeError>(c),
{
    match c {
        CounterInstructions::Increment(a) => amount_frames_decode(a.value),
        CounterInstructions::Decrement(a) => amount_frames_decode(a.value),
        CounterInstructions::Update(a) => amount_frames_decode(a.value),
        CounterInstructions::Reset => {
            assert(seq![3u8].drop_first() =~= Seq::<u8>::empty());
        },
    }
}

/// A buffer that decodes is exactly the encoding of what it decodes to: no other
/// bytes are accepted for the same instruction.
pub proof fn decode_is_exact(input: Seq<u8>)
    ensures
        decode(input) matches Ok(c) ==> input == encode(c),
{
    if let Ok(c) = decode(input) {
        let rest = input.drop_first();
        if input[0] == 3 {
            assert(input =~= seq![3u8]);
        } else {
            le_u32_written_back(rest);
            assert(input =~= seq![input[0]] + rest);
        }
    }
}

/// Decoding depends on the bytes alone: equal buffers decode to equal results.
pub proof fn decode_deterministic(a: Seq<u8>, b: Seq<u8>)
    requires
        a == b,
    ensures
        decode(a) == decode(b),
{
}

} // verus!
