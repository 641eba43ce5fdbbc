//! The persisted wager record and its fixed 42-byte binary layout.
//!
//! A record encodes as 1 byte for the initialization flag, 32 bytes for the
//! initializing player's identity, 8 little-endian bytes for the bid, and
//! 1 byte for the outcome flag. Boolean bytes are restricted to `{0, 1}`;
//! a stored buffer of any other shape is corrupt and is rejected whole.

use vstd::bytes::{spec_u64_from_le_bytes, spec_u64_to_le_bytes, u64_from_le_bytes, u64_to_le_bytes};
use vstd::bytes::lemma_auto_spec_u64_to_from_le_bytes;
use vstd::prelude::*;
use vstd::slice::{slice_index_get, slice_subrange};

use crate::error::LuckySolError;

verus! {

/// A 32-byte principal identity, as the host ledger names accounts.
pub type Pubkey = [u8; 32];

/// Encoded length of a wager record: 1 + 32 + 8 + 1 bytes.
pub const RECORD_LEN: usize = 42;

/// Compares two identities byte for byte.
pub fn pubkey_eq(a: &Pubkey, b: &Pubkey) -> (r: bool)
    ensures
        r == (a@ == b@),
        r == (*a == *b),
{
    proof {
        broadcast use vstd::array::group_array_axioms;
    }
    let mut i: usize = 0;
    while i < 32
        invariant
            i <= 32,
            forall|k: int| 0 <= k < i ==> a@[k] == b@[k],
        decreases 32 - i,
    {
        if a[i] != b[i] {
            proof {
                assert(a@[i as int] != b@[i as int]);
                assert(!(a@ =~= b@));
                assert(!(*a =~= *b));
            }
            return false;
        }
        i += 1;
    }
    proof {
        assert(a@ =~= b@);
        assert(*a =~= *b);
    }
    true
}

/// One wager record, persisted once per game.
///
/// `won` is meaningful only once `is_initialized` is true: a record is
/// written exactly once by a play and consumed exactly once by the player's
/// withdrawal, after which its storage is zeroed.
#[derive(Clone, Copy, Debug, PartialEq, Eq)]
pub struct LuckySol {
    pub is_initialized: bool,
    pub initializer_identity: Pubkey,
    pub bid_amount: u64,
    pub won: bool,
}

/// The byte encoding a boolean field.
pub open spec fn bool_byte(b: bool) -> u8 {
    if b {
        1u8
    } else {
        0u8
    }
}

/// The 42-byte encoding of a record.
pub open spec fn spec_pack(r: LuckySol) -> Seq<u8> {
    seq![bool_byte(r.is_initialized)] + r.initializer_identity@ + spec_u64_to_le_bytes(
        r.bid_amount,
    ) + seq![bool_byte(r.won)]
}

/// Whether a stored buffer has the shape of a record: exactly 42 bytes,
/// with both boolean bytes in `{0, 1}`.
pub open spec fn record_bytes_wf(b: Seq<u8>) -> bool {
    &&& b.len() == RECORD_LEN
    &&& (b[0] == 0 || b[0] == 1)
    &&& (b[41] == 0 || b[41] == 1)
}

/// Whether the record `r` is the one encoded by the well-formed buffer `b`.
pub open spec fn record_matches(r: LuckySol, b: Seq<u8>) -> bool {
    &&& r.is_initialized == (b[0] == 1)
    &&& r.initializer_identity@ == b.subrange(1, 33)
    &&& r.bid_amount == spec_u64_from_le_bytes(b.subrange(33, 41))
    &&& r.won == (b[41] == 1)
}

impl LuckySol {
    /// Whether this record has been written by a play.
    pub fn is_initialized(&self) -> (r: bool)
        ensures
            r == self.is_initialized,
    {
        self.is_initialized
    }

    /// Encodes this record as exactly 42 bytes, whatever its field values.
    pub fn pack(&self) -> (out: Vec<u8>)
        ensures
            out@ == spec_pack(*self),
            out@.len() == RECORD_LEN,
    {
        proof {
            broadcast use vstd::array::group_array_axioms;
        }
        let mut out: Vec<u8> = Vec::new();
        out.push(if self.is_initialized { 1 } else { 0 });
        let mut i: usize = 0;
        while i < 32
            invariant
                i <= 32,
                out@ == seq![bool_byte(self.is_initialized)] + self.initializer_identity@
                    .subrange(0, i as int),
            decreases 32 - i,
        {
            out.push(self.initializer_identity[i]);
            proof {
                assert(seq![bool_byte(self.is_initialized)] + self.initializer_identity@.subrange(
                    0,
                    i + 1,
                ) =~= (seq![bool_byte(self.is_initialized)] + self.initializer_identity@.subrange(
                    0,
                    i as int,
                )).push(self.initializer_identity@[i as int]));
            }
            i += 1;
        }
        proof {
            assert(self.initializer_identity@.subrange(0, 32) =~= self.initializer_identity@);
        }
        let mut amount_bytes = u64_to_le_bytes(self.bid_amount);
        out.append(&mut amount_bytes);
        out.push(if self.won { 1 } else { 0 });
        proof {
            assert(out@ =~= spec_pack(*self));
        }
        out
    }

    /// Decodes a stored buffer without regard to the initialization flag's
    /// value, for callers about to overwrite the record unconditionally.
    /// The 42-byte length and the `{0, 1}` restriction on boolean bytes are
    /// still enforced; any violation is `InvalidAccountData`.
    pub fn unpack_unchecked(src: &[u8]) -> (r: Result<LuckySol, LuckySolError>)
        ensures
            record_bytes_wf(src@) ==> (r matches Ok(rec) && record_matches(rec, src@)),
            !record_bytes_wf(src@) ==> r == Err::<LuckySol, LuckySolError>(
                LuckySolError::InvalidAccountData,
            ),
    {
        proof {
            broadcast use vstd::array::group_array_axioms;
        }
        if src.len() != RECORD_LEN {
            return Err(LuckySolError::InvalidAccountData);
        }
        let b0 = *slice_index_get(src, 0);
        let is_initialized = if b0 == 0 {
            false
        } else if b0 == 1 {
            true
        } else {
            return Err(LuckySolError::InvalidAccountData);
        };
        let b41 = *slice_index_get(src, 41);
        let won = if b41 == 0 {
            false
        } else if b41 == 1 {
            true
        } else {
            return Err(LuckySolError::InvalidAccountData);
        };
        let mut identity: Pubkey = [0u8; 32];
        let mut i: usize = 0;
        while i < 32
            invariant
                i <= 32,
                src@.len() == 42,
                forall|k: int| 0 <= k < i ==> identity@[k] == src@[1 + k],
            decreases 32 - i,
        {
            identity[i] = *slice_index_get(src, 1 + i);
            i += 1;
        }
        proof {
            assert(identity@ =~= src@.subrange(1, 33));
        }
        let bid_amount = u64_from_le_bytes(slice_subrange(src, 33, 41));
        Ok(LuckySol { is_initialized, initializer_identity: identity, bid_amount, won })
    }

    /// Decodes a stored buffer and additionally demands that the record has
    /// been written by a play. A buffer of the wrong shape, and equally a
    /// record never played (or already closed and zeroed), is
    /// `InvalidAccountData`: settlement never proceeds from storage that no
    /// play produced.
    pub fn unpack(src: &[u8]) -> (r: Result<LuckySol, LuckySolError>)
        ensures
            record_bytes_wf(src@) && src@[0] == 1 ==> (r matches Ok(rec) && record_matches(
                rec,
                src@,
            ) && rec.is_initialized),
            !(record_bytes_wf(src@) && src@[0] == 1) ==> r == Err::<LuckySol, LuckySolError>(
                LuckySolError::InvalidAccountData,
            ),
    {
        match Self::unpack_unchecked(src) {
            Ok(rec) => {
                if rec.is_initialized {
                    Ok(rec)
                } else {
                    Err(LuckySolError::InvalidAccountData)
                }
            },
            Err(e) => Err(e),
        }
    }
}

/// A packed record is well formed and decodes to the record that was
/// packed: the encoding loses nothing and always spans exactly 42 bytes,
/// whatever the field values.
pub proof fn lemma_pack_decodes(r: LuckySol)
    ensures
        spec_pack(r).len() == RECORD_LEN,
        record_bytes_wf(spec_pack(r)),
        record_matches(r, spec_pack(r)),
{
    broadcast use vstd::array::group_array_axioms;

    lemma_auto_spec_u64_to_from_le_bytes();
    assert(spec_pack(r)[0] == bool_byte(r.is_initialized));
    assert(spec_pack(r)[41] == bool_byte(r.won));
    assert(spec_pack(r).subrange(1, 33) =~= r.initializer_identity@);
    assert(spec_pack(r).subrange(33, 41) =~= spec_u64_to_le_bytes(r.bid_amount));
}

/// Round trip: the bytes of a packed record determine the record — any
/// record that a well-formed decoding of `pack(r)` yields is `r` itself.
pub proof fn lemma_record_round_trip(r: LuckySol, rec: LuckySol)
    requires
        record_matches(rec, spec_pack(r)),
    ensures
        rec == r,
        spec_pack(r).len() == RECORD_LEN,
        record_bytes_wf(spec_pack(r)),
{
    broadcast use vstd::array::group_array_axioms;

    lemma_auto_spec_u64_to_from_le_bytes();
    assert(spec_pack(r).len() == 42);
    assert(spec_pack(r)[0] == bool_byte(r.is_initialized));
    assert(spec_pack(r)[41] == bool_byte(r.won));
    assert(spec_pack(r).subrange(1, 33) =~= r.initializer_identity@);
    assert(spec_pack(r).subrange(33, 41) =~= spec_u64_to_le_bytes(r.bid_amount));
    assert(rec.bid_amount == r.bid_amount);
    assert(rec.initializer_identity =~= r.initializer_identity);
}

} // verus!
