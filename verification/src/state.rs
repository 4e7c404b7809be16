//! The pool ledger record and the identities it speaks of.

use vstd::prelude::*;

verus! {

/// A 32-byte identity (an account key), held as four 64-bit words in
/// little-endian limb order: word `i` covers bytes `8*i .. 8*i + 8` of the
/// on-ledger key, each word itself little-endian.
#[derive(Clone, Copy, PartialEq, Eq, Structural, Debug)]
pub struct Identifier {
    pub w0: u64,
    pub w1: u64,
    pub w2: u64,
    pub w3: u64,
}

impl Identifier {
    /// Builds an identity from its four words.
    pub fn new(w0: u64, w1: u64, w2: u64, w3: u64) -> (r: Identifier)
        ensures
            r == (Identifier { w0, w1, w2, w3 }),
    {
        Identifier { w0, w1, w2, w3 }
    }

    /// The all-zero identity, used where no delegation target has been
    /// chosen yet.
    pub fn zero() -> (r: Identifier)
        ensures
            r == Identifier::spec_zero(),
    {
        Identifier { w0: 0, w1: 0, w2: 0, w3: 0 }
    }

    /// The all-zero identity.
    pub open spec fn spec_zero() -> Identifier {
        Identifier { w0: 0, w1: 0, w2: 0, w3: 0 }
    }
}

/// The authoritative global record of one pool: principal under management,
/// outstanding claim supply, delegation target, and the administrative
/// authority together with any pending successor. One record exists per
/// deployed pool; every operation is a read-modify-write cycle on it.
#[derive(Clone, Copy, PartialEq, Eq, Structural, Debug)]
pub struct GlobalState {
    /// Total SOL principal currently under management.
    pub total_staked_sol: u64,
    /// Total outstanding LST claim units.
    pub total_lst_supply: u64,
    /// The validator the pool's principal is currently delegated to.
    pub current_validator_pubkey: Identifier,
    /// The account permitted to compound, redelegate, and propose a
    /// successor. Changes only through the two-phase handoff.
    pub admin: Identifier,
    /// The external claim-token mint this pool is bound to; immutable
    /// after initialization.
    pub lst_mint_pubkey: Identifier,
    /// The proposed successor authority, present only while a handoff
    /// proposal is outstanding.
    pub pending_admin: Option<Identifier>,
}

impl GlobalState {
    /// The record's invariant: claim supply cannot outlive its backing
    /// principal. A pool with `total_lst_supply == 0` is in bootstrap
    /// state and may hold any principal.
    pub open spec fn wf(self) -> bool {
        self.total_lst_supply > 0 ==> self.total_staked_sol > 0
    }

    /// Runtime check of the invariant, for callers outside the verified
    /// core that load a record from untrusted bytes.
    pub fn is_well_formed(&self) -> (b: bool)
        ensures
            b == self.wf(),
    {
        self.total_lst_supply == 0 || self.total_staked_sol > 0
    }
}

/// A holder's claim account, maintained by the external token ledger. The
/// pool core never reads or writes it directly; it is modeled here so that
/// callers can mirror the ledger's bookkeeping in plain values.
#[derive(Clone, Copy, PartialEq, Eq, Structural, Debug)]
pub struct UserAccount {
    /// The holder's LST claim balance.
    pub lst_balance: u64,
    /// The holder's wallet identity.
    pub owner: Identifier,
}

} // verus!
