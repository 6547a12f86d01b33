use counter::instructions::{CounterInstructions, DecodeError, UpdateArgs};

fn inc(value: u32) -> CounterInstructions {
    CounterInstructions::Increment(UpdateArgs { value })
}

#[test]
fn increment_five() {
    let r = CounterInstructions::unpack(&[0, 0x05, 0x00, 0x00, 0x00]);
    assert_eq!(r, Ok(inc(5)));
}

#[test]
fn decrement_max() {
    let r = CounterInstructions::unpack(&[1, 0xFF, 0xFF, 0xFF, 0xFF]);
    assert_eq!(
        r,
        Ok(CounterInstructions::Decrement(UpdateArgs { value: 4294967295 }))
    );
}

#[test]
fn update_little_endian() {
    let r = CounterInstructions::unpack(&[2, 0x01, 0x02, 0x03, 0x04]);
    assert_eq!(
        r,
        Ok(CounterInstructions::Update(UpdateArgs { value: 0x0403_0201 }))
    );
}

#[test]
fn reset_alone() {
    assert_eq!(CounterInstructions::unpack(&[3]), Ok(CounterInstructions::Reset));
}

#[test]
fn reset_with_trailing_bytes() {
    assert_eq!(
        CounterInstructions::unpack(&[3, 0]),
        Err(DecodeError::MalformedPayload)
    );
}

#[test]
fn empty_buffer() {
    assert_eq!(CounterInstructions::unpack(&[]), Err(DecodeError::Empty));
}

#[test]
fn unknown_tag_four() {
    assert_eq!(
        CounterInstructions::unpack(&[4]),
        Err(DecodeError::UnknownDiscriminant(4))
    );
}

#[test]
fn unknown_tag_nine() {
    assert_eq!(
        CounterInstructions::unpack(&[9, 0, 0, 0, 0]),
        Err(DecodeError::UnknownDiscriminant(9))
    );
}

#[test]
fn unknown_tag_every_value() {
    for tag in 4u8..=255 {
        assert_eq!(
            CounterInstructions::unpack(&[tag, 1, 2, 3, 4]),
            Err(DecodeError::UnknownDiscriminant(tag))
        );
    }
}

#[test]
fn short_payload() {
    assert_eq!(
        CounterInstructions::unpack(&[0, 1, 2]),
        Err(DecodeError::MalformedPayload)
    );
    for tag in 0u8..=2 {
        for len in 0..4 {
            let mut input = vec![tag];
            input.extend(std::iter::repeat(7u8).take(len));
            assert_eq!(
                CounterInstructions::unpack(&input),
                Err(DecodeError::MalformedPayload)
            );
        }
    }
}

#[test]
fn long_payload() {
    assert_eq!(
        CounterInstructions::unpack(&[0, 5, 0, 0, 0, 0]),
        Err(DecodeError::MalformedPayload)
    );
}

#[test]
fn amount_frames() {
    for v in [0u32, 1, 255, 256, 65_535, 0x1234_5678, u32::MAX] {
        let mut bytes = vec![0u8];
        bytes.extend_from_slice(&v.to_le_bytes());
        assert_eq!(CounterInstructions::unpack(&bytes), Ok(inc(v)));
        bytes[0] = 1;
        assert_eq!(
            CounterInstructions::unpack(&bytes),
            Ok(CounterInstructions::Decrement(UpdateArgs { value: v }))
        );
        bytes[0] = 2;
        assert_eq!(
            CounterInstructions::unpack(&bytes),
            Ok(CounterInstructions::Update(UpdateArgs { value: v }))
        );
    }
}

#[test]
fn payload_matches_borsh() {
    let v: u32 = 0xDEAD_BEEF;
    let mut bytes = vec![2u8];
    bytes.extend(borsh::to_vec(&v).unwrap());
    assert_eq!(
        CounterInstructions::unpack(&bytes),
        Ok(CounterInstructions::Update(UpdateArgs { value: v }))
    );
}

#[test]
fn pack_bytes() {
    assert_eq!(inc(5).pack(), vec![0, 5, 0, 0, 0]);
    assert_eq!(
        CounterInstructions::Decrement(UpdateArgs { value: 0x0A0B_0C0D }).pack(),
        vec![1, 0x0D, 0x0C, 0x0B, 0x0A]
    );
    assert_eq!(
        CounterInstructions::Update(UpdateArgs { value: u32::MAX }).pack(),
        vec![2, 0xFF, 0xFF, 0xFF, 0xFF]
    );
    assert_eq!(CounterInstructions::Reset.pack(), vec![3]);
}

#[test]
fn pack_then_unpack() {
    let all = [
        inc(0),
        inc(5),
        CounterInstructions::Decrement(UpdateArgs { value: 77 }),
        CounterInstructions::Decrement(UpdateArgs { value: u32::MAX }),
        CounterInstructions::Update(UpdateArgs { value: 0x0102_0304 }),
        CounterInstructions::Reset,
    ];
    for c in all {
        assert_eq!(CounterInstructions::unpack(&c.pack()), Ok(c));
    }
}

#[test]
fn unpack_twice_equal() {
    let inputs: [&[u8]; 5] = [&[], &[3], &[9, 0], &[0, 1, 2], &[1, 8, 0, 0, 0]];
    for input in inputs {
        assert_eq!(
            CounterInstructions::unpack(input),
            CounterInstructions::unpack(input)
        );
    }
}
