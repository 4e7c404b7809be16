//! The fixed-width binary layout of the pool record: two little-endian
//! `u64` totals, three 32-byte identities, then a one-byte presence flag
//! and a 32-byte slot for the pending successor — 145 bytes in all.

use vstd::prelude::*;
use crate::error::StakingError;
use crate::state::{GlobalState, Identifier};

verus! {

/// The number of bytes an encoded record occupies.
pub open spec fn spec_record_len() -> int {
    145
}

/// The eight little-endian bytes of a `u64`.
pub open spec fn u64_le(v: u64) -> Seq<u8> {
    seq![
        (v & 0xff) as u8,
        ((v >> 8) & 0xff) as u8,
        ((v >> 16) & 0xff) as u8,
        ((v >> 24) & 0xff) as u8,
        ((v >> 32) & 0xff) as u8,
        ((v >> 40) & 0xff) as u8,
        ((v >> 48) & 0xff) as u8,
        ((v >> 56) & 0xff) as u8,
    ]
}

/// The `u64` read back from eight little-endian bytes.
pub open spec fn u64_of_le(b: Seq<u8>) -> u64
    recommends
        b.len() == 8,
{
    (b[0] as u64) | ((b[1] as u64) << 8) | ((b[2] as u64) << 16) | ((b[3] as u64) << 24) | (
    (b[4] as u64) << 32) | ((b[5] as u64) << 40) | ((b[6] as u64) << 48) | ((b[7] as u64) << 56)
}

/// The 32 bytes of an identity: its four words, each little-endian.
pub open spec fn id_le(id: Identifier) -> Seq<u8> {
    u64_le(id.w0) + u64_le(id.w1) + u64_le(id.w2) + u64_le(id.w3)
}

/// The identity read back from 32 bytes.
pub open spec fn id_of_le(b: Seq<u8>) -> Identifier
    recommends
        b.len() == 32,
{
    Identifier {
        w0: u64_of_le(b.subrange(0, 8)),
        w1: u64_of_le(b.subrange(8, 16)),
        w2: u64_of_le(b.subrange(16, 24)),
        w3: u64_of_le(b.subrange(24, 32)),
    }
}

/// The encoded form of a record. An absent pending successor is written
/// as flag 0 followed by the all-zero identity, keeping the record
/// fixed-width.
pub open spec fn spec_encode(s: GlobalState) -> Seq<u8> {
    u64_le(s.total_staked_sol) + u64_le(s.total_lst_supply) + id_le(s.current_validator_pubkey)
        + id_le(s.admin) + id_le(s.lst_mint_pubkey) + (match s.pending_admin {
        None => seq![0u8] + id_le(Identifier::spec_zero()),
        Some(p) => seq![1u8] + id_le(p),
    })
}

/// The record read back from bytes: refused unless the length and the
/// presence flag are exactly as the layout prescribes. With flag 0 the
/// successor slot's content is immaterial.
pub open spec fn spec_decode(b: Seq<u8>) -> Result<GlobalState, StakingError> {
    if b.len() != spec_record_len() {
        Err(StakingError::InvalidInstruction)
    } else if b[112] != 0 && b[112] != 1 {
        Err(StakingError::InvalidInstruction)
    } else {
        Ok(
            GlobalState {
                total_staked_sol: u64_of_le(b.subrange(0, 8)),
                total_lst_supply: u64_of_le(b.subrange(8, 16)),
                current_validator_pubkey: id_of_le(b.subrange(16, 48)),
                admin: id_of_le(b.subrange(48, 80)),
                lst_mint_pubkey: id_of_le(b.subrange(80, 112)),
                pending_admin: if b[112] == 0 {
                    None
                } else {
                    Some(id_of_le(b.subrange(113, 145)))
                },
            },
        )
    }
}

/// Reading eight little-endian bytes of a word gives the word back.
pub proof fn lemma_u64_le_roundtrip(v: u64)
    ensures
        u64_of_le(u64_le(v)) == v,
{
    assert((((v & 0xff) as u8) as u64) | (((((v >> 8) & 0xff) as u8) as u64) << 8) | (((((v >> 16)
        & 0xff) as u8) as u64) << 16) | (((((v >> 24) & 0xff) as u8) as u64) << 24) | (((((v >> 32)
        & 0xff) as u8) as u64) << 32) | (((((v >> 40) & 0xff) as u8) as u64) << 40) | (((((v >> 48)
        & 0xff) as u8) as u64) << 48) | (((((v >> 56) & 0xff) as u8) as u64) << 56) == v)
        by (bit_vector);
}

/// Reading the 32 bytes of an identity gives the identity back.
pub proof fn lemma_id_le_roundtrip(id: Identifier)
    ensures
        id_of_le(id_le(id)) == id,
{
    let b = id_le(id);
    assert(b.subrange(0, 8) =~= u64_le(id.w0));
    assert(b.subrange(8, 16) =~= u64_le(id.w1));
    assert(b.subrange(16, 24) =~= u64_le(id.w2));
    assert(b.subrange(24, 32) =~= u64_le(id.w3));
    lemma_u64_le_roundtrip(id.w0);
    lemma_u64_le_roundtrip(id.w1);
    lemma_u64_le_roundtrip(id.w2);
    lemma_u64_le_roundtrip(id.w3);
}

/// Decoding an encoded record recovers it exactly, for every record.
#[verifier::rlimit(50)]
pub proof fn lemma_record_roundtrip(s: GlobalState)
    ensures
        spec_decode(spec_encode(s)) == Ok::<GlobalState, StakingError>(s),
{
    let b = spec_encode(s);
    assert(id_le(s.current_validator_pubkey).len() == 32);
    assert(id_le(s.admin).len() == 32);
    assert(id_le(s.lst_mint_pubkey).len() == 32);
    assert(b.len() == 145);
    assert(b.subrange(0, 8) =~= u64_le(s.total_staked_sol));
    assert(b.subrange(8, 16) =~= u64_le(s.total_lst_supply));
    assert(b.subrange(16, 48) =~= id_le(s.current_validator_pubkey));
    assert(b.subrange(48, 80) =~= id_le(s.admin));
    assert(b.subrange(80, 112) =~= id_le(s.lst_mint_pubkey));
    lemma_u64_le_roundtrip(s.total_staked_sol);
    lemma_u64_le_roundtrip(s.total_lst_supply);
    lemma_id_le_roundtrip(s.current_validator_pubkey);
    lemma_id_le_roundtrip(s.admin);
    lemma_id_le_roundtrip(s.lst_mint_pubkey);
    match s.pending_admin {
        None => {
            assert(b[112] == 0);
        },
        Some(p) => {
            assert(b[112] == 1);
            assert(b.subrange(113, 145) =~= id_le(p));
            lemma_id_le_roundtrip(p);
        },
    }
}

/// Appends the eight little-endian bytes of `v`.
fn push_u64_le(out: &mut Vec<u8>, v: u64)
    ensures
        final(out)@ == old(out)@ + u64_le(v),
{
    out.push((v & 0xff) as u8);
    out.push(((v >> 8) & 0xff) as u8);
    out.push(((v >> 16) & 0xff) as u8);
    out.push(((v >> 24) & 0xff) as u8);
    out.push(((v >> 32) & 0xff) as u8);
    out.push(((v >> 40) & 0xff) as u8);
    out.push(((v >> 48) & 0xff) as u8);
    out.push(((v >> 56) & 0xff) as u8);
    proof {
        assert(out@ =~= old(out)@ + u64_le(v));
    }
}

/// Appends the 32 bytes of an identity.
fn push_id(out: &mut Vec<u8>, id: Identifier)
    ensures
        final(out)@ == old(out)@ + id_le(id),
{
    push_u64_le(out, id.w0);
    push_u64_le(out, id.w1);
    push_u64_le(out, id.w2);
    push_u64_le(out, id.w3);
    proof {
        assert(out@ =~= old(out)@ + id_le(id));
    }
}

/// Serializes a record into its 145-byte fixed-width form.
pub fn encode(s: &GlobalState) -> (r: Vec<u8>)
    ensures
        r@ == spec_encode(*s),
        r@.len() == spec_record_len(),
{
    let mut out: Vec<u8> = Vec::new();
    push_u64_le(&mut out, s.total_staked_sol);
    push_u64_le(&mut out, s.total_lst_supply);
    push_id(&mut out, s.current_validator_pubkey);
    push_id(&mut out, s.admin);
    push_id(&mut out, s.lst_mint_pubkey);
    match s.pending_admin {
        None => {
            out.push(0u8);
            push_id(&mut out, Identifier::zero());
        },
        Some(p) => {
            out.push(1u8);
            push_id(&mut out, p);
        },
    }
    proof {
        assert(out@ =~= spec_encode(*s));
    }
    out
}

/// Reads the little-endian word at `off`.
fn read_u64_le(b: &Vec<u8>, off: usize) -> (r: u64)
    requires
        off + 8 <= b@.len(),
        off + 8 <= usize::MAX,
    ensures
        r == u64_of_le(b@.subrange(off as int, off as int + 8)),
{
    let r: u64 = (b[off] as u64) | ((b[off + 1] as u64) << 8) | ((b[off + 2] as u64) << 16) | ((b[off
        + 3] as u64) << 24) | ((b[off + 4] as u64) << 32) | ((b[off + 5] as u64) << 40) | ((b[off
        + 6] as u64) << 48) | ((b[off + 7] as u64) << 56);
    proof {
        let s = b@.subrange(off as int, off as int + 8);
        assert(s[0] == b@[off as int] && s[1] == b@[off as int + 1] && s[2] == b@[off as int + 2]
            && s[3] == b@[off as int + 3] && s[4] == b@[off as int + 4] && s[5] == b@[off as int
            + 5] && s[6] == b@[off as int + 6] && s[7] == b@[off as int + 7]);
    }
    r
}

/// Reads the identity whose 32 bytes begin at `off`.
fn read_id(b: &Vec<u8>, off: usize) -> (r: Identifier)
    requires
        off + 32 <= b@.len(),
        off + 32 <= usize::MAX,
    ensures
        r == id_of_le(b@.subrange(off as int, off as int + 32)),
{
    let r = Identifier {
        w0: read_u64_le(b, off),
        w1: read_u64_le(b, off + 8),
        w2: read_u64_le(b, off + 16),
        w3: read_u64_le(b, off + 24),
    };
    proof {
        let s = b@.subrange(off as int, off as int + 32);
        assert(s.subrange(0, 8) =~= b@.subrange(off as int, off as int + 8));
        assert(s.subrange(8, 16) =~= b@.subrange(off as int + 8, off as int + 16));
        assert(s.subrange(16, 24) =~= b@.subrange(off as int + 16, off as int + 24));
        assert(s.subrange(24, 32) =~= b@.subrange(off as int + 24, off as int + 32));
    }
    r
}

/// Parses a 145-byte fixed-width record; any other length, or a presence
/// flag other than 0 or 1, is refused as `InvalidInstruction`.
pub fn decode(b: &Vec<u8>) -> (r: Result<GlobalState, StakingError>)
    ensures
        r == spec_decode(b@),
{
    if b.len() != 145 {
        return Err(StakingError::InvalidInstruction);
    }
    let flag: u8 = b[112];
    if flag != 0 && flag != 1 {
        return Err(StakingError::InvalidInstruction);
    }
    Ok(
        GlobalState {
            total_staked_sol: read_u64_le(b, 0),
            total_lst_supply: read_u64_le(b, 8),
            current_validator_pubkey: read_id(b, 16),
            admin: read_id(b, 48),
            lst_mint_pubkey: read_id(b, 80),
            pending_admin: if flag == 0 {
                None
            } else {
                Some(read_id(b, 113))
            },
        },
    )
}

} // verus!
