//! The authorization guard, delegation change, and the two-phase
//! authority handoff.

use vstd::prelude::*;
use crate::error::StakingError;
use crate::state::{GlobalState, Identifier};

verus! {

/// The redelegation transition: only the current authority may point the
/// pool's principal at a new validator; the choice itself is not
/// validated here — vetting the target is the host staking subsystem's
/// responsibility.
pub open spec fn spec_redelegate(
    s: GlobalState,
    signer: Identifier,
    new_validator_pubkey: Identifier,
) -> Result<GlobalState, StakingError> {
    if signer != s.admin {
        Err(StakingError::Unauthorized)
    } else {
        Ok(GlobalState { current_validator_pubkey: new_validator_pubkey, ..s })
    }
}

/// The proposal half of the handoff: only the current authority may name
/// a successor, and a new proposal overwrites any prior pending one.
pub open spec fn spec_propose(
    s: GlobalState,
    signer: Identifier,
    new_admin: Identifier,
) -> Result<GlobalState, StakingError> {
    if signer != s.admin {
        Err(StakingError::Unauthorized)
    } else {
        Ok(GlobalState { pending_admin: Some(new_admin), ..s })
    }
}

/// The acceptance half of the handoff: with no proposal outstanding the
/// attempt fails as `AdminChangeFailed`; with one outstanding, only its
/// named successor may commit, atomically becoming the authority and
/// clearing the proposal.
pub open spec fn spec_accept(s: GlobalState, signer: Identifier) -> Result<
    GlobalState,
    StakingError,
> {
    match s.pending_admin {
        None => Err(StakingError::AdminChangeFailed),
        Some(p) => if signer != p {
            Err(StakingError::Unauthorized)
        } else {
            Ok(GlobalState { admin: p, pending_admin: None, ..s })
        },
    }
}

impl GlobalState {
    /// The authorization guard for the authority role: a pure comparison
    /// of the claimed signer against the record's authority field. The
    /// cryptographic validity of the signature is established upstream.
    pub fn is_authorized_admin(&self, signer: Identifier) -> (b: bool)
        ensures
            b == (signer == self.admin),
    {
        signer == self.admin
    }

    /// Points the pool's delegation at `new_validator_pubkey`. Only the
    /// current authority may do this; any other signer is refused with
    /// `Unauthorized` and the record is untouched.
    pub fn redelegate(&mut self, signer: Identifier, new_validator_pubkey: Identifier) -> (r:
        Result<(), StakingError>)
        ensures
            match spec_redelegate(*old(self), signer, new_validator_pubkey) {
                Ok(s2) => r == Ok::<(), StakingError>(()) && *final(self) == s2,
                Err(e) => r == Err::<(), StakingError>(e) && *final(self) == *old(self),
            },
            final(self).wf() == old(self).wf(),
    {
        if !self.is_authorized_admin(signer) {
            return Err(StakingError::Unauthorized);
        }
        self.current_validator_pubkey = new_validator_pubkey;
        Ok(())
    }

    /// Proposes `new_admin` as the successor authority. Only the current
    /// authority may propose; a later proposal overwrites an earlier one.
    /// Any other signer is refused with `Unauthorized` and the record is
    /// untouched.
    pub fn propose_admin(&mut self, signer: Identifier, new_admin: Identifier) -> (r: Result<
        (),
        StakingError,
    >)
        ensures
            match spec_propose(*old(self), signer, new_admin) {
                Ok(s2) => r == Ok::<(), StakingError>(()) && *final(self) == s2,
                Err(e) => r == Err::<(), StakingError>(e) && *final(self) == *old(self),
            },
            final(self).wf() == old(self).wf(),
    {
        if !self.is_authorized_admin(signer) {
            return Err(StakingError::Unauthorized);
        }
        self.pending_admin = Some(new_admin);
        Ok(())
    }

    /// Commits an outstanding authority proposal. Fails with
    /// `AdminChangeFailed` when no proposal is pending, and with
    /// `Unauthorized` when the signer is not the proposed successor;
    /// on success the successor becomes the authority and the proposal
    /// is cleared, in one step.
    pub fn accept_admin(&mut self, signer: Identifier) -> (r: Result<(), StakingError>)
        ensures
            match spec_accept(*old(self), signer) {
                Ok(s2) => r == Ok::<(), StakingError>(()) && *final(self) == s2,
                Err(e) => r == Err::<(), StakingError>(e) && *final(self) == *old(self),
            },
            final(self).wf() == old(self).wf(),
    {
        match self.pending_admin {
            None => Err(StakingError::AdminChangeFailed),
            Some(p) => {
                if signer != p {
                    return Err(StakingError::Unauthorized);
                }
                self.admin = p;
                self.pending_admin = None;
                Ok(())
            },
        }
    }
}

} // verus!
