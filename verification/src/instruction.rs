//! The instruction codec: a raw byte buffer decodes into one of three tagged
//! operations with fixed-width little-endian fields, or fails as a whole.
//!
//! The first byte selects the variant; the following bytes are sliced to the
//! variant's exact field width. Trailing bytes beyond that width are ignored.
//! Decoding never produces a partial or defaulted operation: an empty buffer,
//! an unknown tag, or a truncated field is `InvalidInstruction`.

use vstd::bytes::{spec_u64_from_le_bytes, u64_from_le_bytes};
use vstd::prelude::*;
use vstd::slice::{slice_index_get, slice_subrange};

use crate::error::LuckySolError;

verus! {

/// One of the three operations of the wager protocol, as carried on the wire.
#[derive(Clone, Copy, Debug, PartialEq, Eq, Structural)]
pub enum LuckySolInstruction {
    /// Tag 0: start a game, wagering `bid` from the deposit account.
    Play { bid: u64 },
    /// Tag 1: move `amount` from the shared funds pool to the administrator.
    AdminWithdraw { amount: u64 },
    /// Tag 2: settle a played record in favour of its initializer.
    PlayerWithdraw,
}

impl LuckySolInstruction {
    /// The 8-byte little-endian field at the front of `rest`, or
    /// `InvalidInstruction` if fewer than 8 bytes remain.
    pub open spec fn spec_unpack_amount(rest: Seq<u8>) -> Result<u64, LuckySolError> {
        if rest.len() >= 8 {
            Ok(spec_u64_from_le_bytes(rest.subrange(0, 8)))
        } else {
            Err(LuckySolError::InvalidInstruction)
        }
    }

    /// What decoding yields on every possible buffer: a tag byte in
    /// `{0, 1, 2}` followed by that variant's exact field width decodes to
    /// the variant; everything else is `InvalidInstruction`.
    pub open spec fn spec_unpack(input: Seq<u8>) -> Result<LuckySolInstruction, LuckySolError> {
        if input.len() == 0 {
            Err(LuckySolError::InvalidInstruction)
        } else {
            let rest = input.skip(1);
            if input[0] == 0 {
                match Self::spec_unpack_amount(rest) {
                    Ok(bid) => Ok(LuckySolInstruction::Play { bid }),
                    Err(e) => Err(e),
                }
            } else if input[0] == 1 {
                match Self::spec_unpack_amount(rest) {
                    Ok(amount) => Ok(LuckySolInstruction::AdminWithdraw { amount }),
                    Err(e) => Err(e),
                }
            } else if input[0] == 2 {
                Ok(LuckySolInstruction::PlayerWithdraw)
            } else {
                Err(LuckySolError::InvalidInstruction)
            }
        }
    }

    /// Decodes an instruction buffer, all or nothing.
    pub fn unpack(input: &[u8]) -> (r: Result<LuckySolInstruction, LuckySolError>)
        ensures
            r == Self::spec_unpack(input@),
    {
        if input.len() == 0 {
            return Err(LuckySolError::InvalidInstruction);
        }
        let tag = *slice_index_get(input, 0);
        let rest = slice_subrange(input, 1, input.len());
        proof {
            assert(rest@ =~= input@.skip(1));
        }
        match tag {
            0 => {
                match Self::unpack_bid(rest) {
                    Ok(bid) => Ok(LuckySolInstruction::Play { bid }),
                    Err(e) => Err(e),
                }
            },
            1 => {
                match Self::unpack_bid(rest) {
                    Ok(amount) => Ok(LuckySolInstruction::AdminWithdraw { amount }),
                    Err(e) => Err(e),
                }
            },
            2 => Ok(LuckySolInstruction::PlayerWithdraw),
            _ => Err(LuckySolError::InvalidInstruction),
        }
    }

    /// Reads the 8-byte little-endian amount field at the front of `input`.
    pub fn unpack_bid(input: &[u8]) -> (r: Result<u64, LuckySolError>)
        ensures
            r == Self::spec_unpack_amount(input@),
    {
        if input.len() < 8 {
            return Err(LuckySolError::InvalidInstruction);
        }
        let field = slice_subrange(input, 0, 8);
        Ok(u64_from_le_bytes(field))
    }
}

/// Decode totality: on an empty buffer, an unknown tag, or a truncated
/// field, decoding always fails with `InvalidInstruction` — and with
/// nothing else — and a buffer that decodes at all carries a tag in
/// `{0, 1, 2}` with its full field width present.
pub proof fn lemma_decode_totality(input: Seq<u8>)
    ensures
        input.len() == 0 ==> LuckySolInstruction::spec_unpack(input) == Err::<
            LuckySolInstruction,
            LuckySolError,
        >(LuckySolError::InvalidInstruction),
        input.len() > 0 && input[0] > 2 ==> LuckySolInstruction::spec_unpack(input) == Err::<
            LuckySolInstruction,
            LuckySolError,
        >(LuckySolError::InvalidInstruction),
        input.len() > 0 && (input[0] == 0 || input[0] == 1) && input.len() < 9
            ==> LuckySolInstruction::spec_unpack(input) == Err::<
            LuckySolInstruction,
            LuckySolError,
        >(LuckySolError::InvalidInstruction),
        LuckySolInstruction::spec_unpack(input) is Ok ==> input.len() > 0 && input[0] <= 2 && (
        input[0] == 2 || input.len() >= 9),
{
}

} // verus!
