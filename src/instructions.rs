use vstd::prelude::*;

verus! {

/// Arguments of the instructions that carry an amount.
#[derive(Debug, Clone, Copy, PartialEq, Eq, Structural)]
pub struct UpdateArgs {
    pub value: u32,
}

/// An operation on a single integer counter.
#[derive(Debug, Clone, Copy, PartialEq, Eq, Structural)]
pub enum CounterInstructions {
    /// Add `value` to the counter.
    Increment(UpdateArgs),
    /// Subtract `value` from the counter.
    Decrement(UpdateArgs),
    /// Overwrite the counter with `value`.
    Update(UpdateArgs),
    /// Set the counter to zero.
    Reset,
}

/// Why a buffer does not decode to an instruction.
#[derive(Debug, Clone, Copy, PartialEq, Eq, Structural)]
pub enum DecodeError {
    /// The buffer holds no tag byte.
    Empty,
    /// The tag byte names no instruction.
    UnknownDiscriminant(u8),
    /// The bytes after a known tag are not the payload that the tag calls for.
    MalformedPayload,
}

/// The number whose little-endian encoding is the four bytes `b`.
pub open spec fn le_u32(b: Seq<u8>) -> u32
    recommends
        b.len() == 4,
{
    (b[0] as int + 0x100 * b[1] + 0x1_0000 * b[2] + 0x100_0000 * b[3]) as u32
}

/// The four bytes of `v`, least significant first.
pub open spec fn le_bytes(v: u32) -> Seq<u8> {
    seq![
        (v % 0x100) as u8,
        (v / 0x100 % 0x100) as u8,
        (v / 0x1_0000 % 0x100) as u8,
        (v / 0x100_0000) as u8,
    ]
}

/// Relies on borsh's `BorshDeserialize::try_from_slice` for `u32`: it reads four
/// bytes as a little-endian number and fails on a shorter slice or on bytes left over.
#[verifier::external_body]
fn u32_from_slice(b: &[u8]) -> (r: Option<u32>)
    ensures
        r == (if b@.len() == 4 { Some(le_u32(b@)) } else { None::<u32> }),
{
    <u32 as borsh::BorshDeserialize>::try_from_slice(b).ok()
}


/// The instruction that a tag in `0..=2` makes of its amount.
pub open spec fn with_args(tag: u8, args: UpdateArgs) -> CounterInstructions {
    if tag == 0 {
        CounterInstructions::Increment(args)
    } else if tag == 1 {
        CounterInstructions::Decrement(args)
    } else {
        CounterInstructions::Update(args)
    }
}

/// What a buffer decodes to. The first byte is the tag; the bytes after it must be
/// exactly the payload that the tag calls for: four little-endian bytes for tags
/// 0, 1 and 2, nothing for tag 3.
pub open spec fn decode(input: Seq<u8>) -> Result<CounterInstructions, DecodeError> {
    if input.len() == 0 {
        Err(DecodeError::Empty)
    } else {
        let tag = input[0];
        let rest = input.drop_first();
        if tag > 3 {
            Err(DecodeError::UnknownDiscriminant(tag))
        } else if tag == 3 {
            if rest.len() == 0 {
                Ok(CounterInstructions::Reset)
            } else {
                Err(DecodeError::MalformedPayload)
            }
        } else if rest.len() != 4 {
            Err(DecodeError::MalformedPayload)
        } else {
            Ok(with_args(tag, UpdateArgs { value: le_u32(rest) }))
        }
    }
}

/// The bytes of an instruction: its tag, then its amount if it has one.
pub open spec fn encode(c: CounterInstructions) -> Seq<u8> {
    match c {
        CounterInstructions::Increment(a) => seq![0u8] + le_bytes(a.value),
        CounterInstructions::Decrement(a) => seq![1u8] + le_bytes(a.value),
        CounterInstructions::Update(a) => seq![2u8] + le_bytes(a.value),
        CounterInstructions::Reset => seq![3u8],
    }
}

impl CounterInstructions {
    /// Decodes an untrusted buffer. Never panics: every buffer gives an
    /// instruction or one of the errors of `DecodeError`.
    pub fn unpack(input: &[u8]) -> (r: Result<Self, DecodeError>)
        ensures
            r == decode(input@),
    {
        if input.len() == 0 {
            return Err(DecodeError::Empty);
        }
        let (head, rest) = input.split_at(1);
        let tag = head[0];
        assert(rest@ == input@.drop_first());
        if tag > 3 {
            return Err(DecodeError::UnknownDiscriminant(tag));
        }
        if tag == 3 {
            return if rest.len() == 0 {
                Ok(CounterInstructions::Reset)
            } else {
                Err(DecodeError::MalformedPayload)
            };
        }
        match u32_from_slice(rest) {
            None => Err(DecodeError::MalformedPayload),
            Some(value) => {
                let args = UpdateArgs { value };
                Ok(
                    if tag == 0 {
                        CounterInstructions::Increment(args)
                    } else if tag == 1 {
                        CounterInstructions::Decrement(args)
                    } else {
                        CounterInstructions::Update(args)
                    },
                )
            },
        }
    }

    /// The bytes that `unpack` turns back into this instruction.
    pub fn pack(&self) -> (r: Vec<u8>)
        ensures
            r@ == encode(*self),
    {
        match self {
            CounterInstructions::Increment(a) => framed(0, a.value),
            CounterInstructions::Decrement(a) => framed(1, a.value),
            CounterInstructions::Update(a) => framed(2, a.value),
            CounterInstructions::Reset => vec![3u8],
        }
    }
}

/// A tag byte followed by the four little-endian bytes of `v`.
fn framed(tag: u8, v: u32) -> (r: Vec<u8>)
    ensures
        r@ == seq![tag] + le_bytes(v),
{
    let r = vec![
        tag,
        (v % 0x100) as u8,
        (v / 0x100 % 0x100) as u8,
        (v / 0x1_0000 % 0x100) as u8,
        (v / 0x100_0000) as u8,
    ];
    assert(r@ =~= seq![tag] + le_bytes(v));
    r
}

} // verus!
