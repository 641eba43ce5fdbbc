//! Wire-format tests: instruction decoding and the 42-byte record layout.

use lucky_sol::error::LuckySolError;
use lucky_sol::instruction::LuckySolInstruction;
use lucky_sol::state::{LuckySol, RECORD_LEN};

fn play_buffer(bid: u64) -> Vec<u8> {
    let mut buf = vec![0u8];
    buf.extend_from_slice(&bid.to_le_bytes());
    buf
}

#[test]
fn decode_play() {
    let buf = play_buffer(1000);
    assert_eq!(
        LuckySolInstruction::unpack(&buf),
        Ok(LuckySolInstruction::Play { bid: 1000 })
    );
}

#[test]
fn decode_admin_withdraw() {
    let mut buf = vec![1u8];
    buf.extend_from_slice(&77u64.to_le_bytes());
    assert_eq!(
        LuckySolInstruction::unpack(&buf),
        Ok(LuckySolInstruction::AdminWithdraw { amount: 77 })
    );
}

#[test]
fn decode_player_withdraw() {
    assert_eq!(
        LuckySolInstruction::unpack(&[2u8]),
        Ok(LuckySolInstruction::PlayerWithdraw)
    );
}

#[test]
fn decode_empty_buffer_fails() {
    assert_eq!(
        LuckySolInstruction::unpack(&[]),
        Err(LuckySolError::InvalidInstruction)
    );
}

#[test]
fn decode_unknown_tag_fails() {
    for tag in [3u8, 4, 17, 255] {
        let mut buf = vec![tag];
        buf.extend_from_slice(&5u64.to_le_bytes());
        assert_eq!(
            LuckySolInstruction::unpack(&buf),
            Err(LuckySolError::InvalidInstruction)
        );
    }
}

#[test]
fn decode_truncated_field_fails() {
    for tag in [0u8, 1u8] {
        for short in 0..8usize {
            let mut buf = vec![tag];
            buf.extend_from_slice(&vec![0u8; short]);
            assert_eq!(
                LuckySolInstruction::unpack(&buf),
                Err(LuckySolError::InvalidInstruction),
                "tag {tag} with {short} field bytes must fail"
            );
        }
    }
}

#[test]
fn decode_ignores_trailing_bytes() {
    let mut buf = play_buffer(42);
    buf.extend_from_slice(&[9u8, 9, 9]);
    assert_eq!(
        LuckySolInstruction::unpack(&buf),
        Ok(LuckySolInstruction::Play { bid: 42 })
    );
    assert_eq!(
        LuckySolInstruction::unpack(&[2u8, 1, 2, 3]),
        Ok(LuckySolInstruction::PlayerWithdraw)
    );
}

#[test]
fn decode_little_endian_bid() {
    let mut buf = vec![0u8, 0x01, 0x02, 0, 0, 0, 0, 0, 0];
    assert_eq!(
        LuckySolInstruction::unpack(&buf),
        Ok(LuckySolInstruction::Play { bid: 0x0201 })
    );
    buf[8] = 0xff;
    assert_eq!(
        LuckySolInstruction::unpack(&buf),
        Ok(LuckySolInstruction::Play {
            bid: 0xff00_0000_0000_0201
        })
    );
}

#[test]
fn pack_always_42_bytes() {
    let records = [
        LuckySol {
            is_initialized: false,
            initializer_identity: [0u8; 32],
            bid_amount: 0,
            won: false,
        },
        LuckySol {
            is_initialized: true,
            initializer_identity: [255u8; 32],
            bid_amount: u64::MAX,
            won: true,
        },
    ];
    for r in records {
        assert_eq!(r.pack().len(), RECORD_LEN);
    }
}

#[test]
fn record_round_trip() {
    let r = LuckySol {
        is_initialized: true,
        initializer_identity: [7u8; 32],
        bid_amount: 123_456_789,
        won: true,
    };
    let bytes = r.pack();
    assert_eq!(LuckySol::unpack(&bytes), Ok(r));
    assert_eq!(LuckySol::unpack_unchecked(&bytes), Ok(r));
}

#[test]
fn record_round_trip_uninitialized() {
    let r = LuckySol {
        is_initialized: false,
        initializer_identity: [9u8; 32],
        bid_amount: 1,
        won: false,
    };
    let bytes = r.pack();
    assert_eq!(LuckySol::unpack_unchecked(&bytes), Ok(r));
    // The checked unpack refuses a record no play has written.
    assert_eq!(LuckySol::unpack(&bytes), Err(LuckySolError::InvalidAccountData));
}

#[test]
fn record_layout_fixed_offsets() {
    let r = LuckySol {
        is_initialized: true,
        initializer_identity: [0xabu8; 32],
        bid_amount: 0x0807_0605_0403_0201,
        won: true,
    };
    let bytes = r.pack();
    assert_eq!(bytes[0], 1);
    assert_eq!(&bytes[1..33], &[0xabu8; 32][..]);
    assert_eq!(&bytes[33..41], &[1u8, 2, 3, 4, 5, 6, 7, 8][..]);
    assert_eq!(bytes[41], 1);
}

#[test]
fn unpack_wrong_length_fails() {
    assert_eq!(
        LuckySol::unpack_unchecked(&[0u8; 41]),
        Err(LuckySolError::InvalidAccountData)
    );
    assert_eq!(
        LuckySol::unpack_unchecked(&[0u8; 43]),
        Err(LuckySolError::InvalidAccountData)
    );
    assert_eq!(LuckySol::unpack(&[]), Err(LuckySolError::InvalidAccountData));
}

#[test]
fn unpack_bad_boolean_byte_fails() {
    let mut bytes = vec![0u8; 42];
    bytes[0] = 2;
    assert_eq!(
        LuckySol::unpack_unchecked(&bytes),
        Err(LuckySolError::InvalidAccountData)
    );
    bytes[0] = 1;
    bytes[41] = 7;
    assert_eq!(
        LuckySol::unpack_unchecked(&bytes),
        Err(LuckySolError::InvalidAccountData)
    );
    assert_eq!(LuckySol::unpack(&bytes), Err(LuckySolError::InvalidAccountData));
}

#[test]
fn error_codes_are_stable() {
    assert_eq!(LuckySolError::InvalidInstruction.code(), 0);
    assert_eq!(LuckySolError::NotRentExempt.code(), 1);
    assert_eq!(LuckySolError::ExpectedAmountMismatch.code(), 2);
    assert_eq!(LuckySolError::AmountOverflow.code(), 3);
    assert_eq!(LuckySolError::MissingRequiredSignature.code(), 4);
    assert_eq!(LuckySolError::InvalidAccountData.code(), 5);
    assert_eq!(LuckySolError::AccountAlreadyInitialized.code(), 6);
    assert_eq!(LuckySolError::AmountOverflow.describe(), "amount overflow");
}
