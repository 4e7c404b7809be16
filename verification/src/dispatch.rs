//! The pool transition dispatcher: routes one decoded operation to the
//! accounting engine or the authority protocol against the loaded record,
//! and reports which token-ledger action the host must carry out.

use vstd::prelude::*;
use crate::accounting::{spec_compound, spec_deposit, spec_minted, spec_redeem};
use crate::authority::{spec_accept, spec_propose, spec_redelegate};
use crate::error::StakingError;
use crate::state::{GlobalState, Identifier};

verus! {

/// One decoded pool operation. Payload decoding from raw bytes and the
/// gathering of the referenced accounts happen upstream; by the time an
/// instruction reaches the dispatcher it is plain values.
#[derive(Clone, Copy, PartialEq, Eq, Structural, Debug)]
pub enum StakeInstruction {
    /// Create the pool record: bind the claim mint, make the signer the
    /// authority, and seed the principal total.
    Initialize { total_staked_sol: u64, lst_mint_pubkey: Identifier },
    /// Deposit SOL principal and receive LST claim units in return.
    Stake { amount: u64 },
    /// Redeem LST claim units for SOL principal.
    Withdraw { lst_amount: u64 },
    /// Add externally earned rewards to the principal total.
    AutoCompound,
    /// Point the pool's delegation at a new validator.
    Redelegate { new_validator_pubkey: Identifier },
    /// Name a successor authority (first half of the handoff).
    ChangeAdminPropose { new_admin: Identifier },
    /// Commit an outstanding authority proposal (second half).
    ChangeAdminAccept,
}

/// The bookkeeping request a successful operation obliges the host to
/// issue to the external token ledger, inside the same transaction.
#[derive(Clone, Copy, PartialEq, Eq, Structural, Debug)]
pub enum TokenAction {
    /// Mint `amount` claim units to the depositor.
    Mint { amount: u64 },
    /// Burn `lst_amount` claim units from the holder and transfer
    /// `sol_returned` principal out of pool custody to them.
    Burn { lst_amount: u64, sol_returned: u64 },
}

/// The initialization transition: refused while the hosting account is
/// not rent-exempt; otherwise the record starts with the given principal,
/// no claim supply, no delegation target, no pending successor, and the
/// initializing signer as authority.
pub open spec fn spec_initialize(
    total_staked_sol: u64,
    lst_mint_pubkey: Identifier,
    signer: Identifier,
    rent_exempt: bool,
) -> Result<GlobalState, StakingError> {
    if !rent_exempt {
        Err(StakingError::NotRentExempt)
    } else {
        Ok(
            GlobalState {
                total_staked_sol,
                total_lst_supply: 0,
                current_validator_pubkey: Identifier::spec_zero(),
                admin: signer,
                lst_mint_pubkey,
                pending_admin: None,
            },
        )
    }
}

/// The whole dispatch as one transition on `Option<GlobalState>`: `None`
/// is the not-yet-initialized pool. Initialization is the only operation
/// permitted then, and the only one refused once a record exists. A
/// failure leaves the record exactly as it was.
pub open spec fn spec_process(
    state: Option<GlobalState>,
    instruction: StakeInstruction,
    signer: Identifier,
    rent_exempt: bool,
    reward_amount: u64,
) -> (Option<GlobalState>, Result<Option<TokenAction>, StakingError>) {
    match instruction {
        StakeInstruction::Initialize { total_staked_sol, lst_mint_pubkey } => match state {
            Some(_) => (state, Err(StakingError::InvalidInstruction)),
            None => match spec_initialize(total_staked_sol, lst_mint_pubkey, signer, rent_exempt) {
                Ok(s) => (Some(s), Ok(None)),
                Err(e) => (None, Err(e)),
            },
        },
        StakeInstruction::Stake { amount } => match state {
            None => (state, Err(StakingError::InvalidInstruction)),
            Some(s) => match spec_deposit(s, amount) {
                Ok(p) => (Some(p.0), Ok(Some(TokenAction::Mint { amount: p.1 }))),
                Err(e) => (state, Err(e)),
            },
        },
        StakeInstruction::Withdraw { lst_amount } => match state {
            None => (state, Err(StakingError::InvalidInstruction)),
            Some(s) => match spec_redeem(s, lst_amount) {
                Ok(p) => (Some(p.0), Ok(Some(TokenAction::Burn { lst_amount, sol_returned: p.1 }))),
                Err(e) => (state, Err(e)),
            },
        },
        StakeInstruction::AutoCompound => match state {
            None => (state, Err(StakingError::InvalidInstruction)),
            Some(s) => match spec_compound(s, signer, reward_amount) {
                Ok(s2) => (Some(s2), Ok(None)),
                Err(e) => (state, Err(e)),
            },
        },
        StakeInstruction::Redelegate { new_validator_pubkey } => match state {
            None => (state, Err(StakingError::InvalidInstruction)),
            Some(s) => match spec_redelegate(s, signer, new_validator_pubkey) {
                Ok(s2) => (Some(s2), Ok(None)),
                Err(e) => (state, Err(e)),
            },
        },
        StakeInstruction::ChangeAdminPropose { new_admin } => match state {
            None => (state, Err(StakingError::InvalidInstruction)),
            Some(s) => match spec_propose(s, signer, new_admin) {
                Ok(s2) => (Some(s2), Ok(None)),
                Err(e) => (state, Err(e)),
            },
        },
        StakeInstruction::ChangeAdminAccept => match state {
            None => (state, Err(StakingError::InvalidInstruction)),
            Some(s) => match spec_accept(s, signer) {
                Ok(s2) => (Some(s2), Ok(None)),
                Err(e) => (state, Err(e)),
            },
        },
    }
}

/// Runs one operation against the pool record. `signer` is the identity
/// whose signature the host verified on this request; `rent_exempt`
/// reports the host's balance check on the record account (consulted at
/// initialization only); `reward_amount` is the externally fetched yield
/// (consulted at compounding only). The overflow bounds in the
/// precondition are machine limits on the two `u64` totals; the caller
/// checks them before dispatching.
pub fn process(
    state: &mut Option<GlobalState>,
    instruction: StakeInstruction,
    signer: Identifier,
    rent_exempt: bool,
    reward_amount: u64,
) -> (r: Result<Option<TokenAction>, StakingError>)
    requires
        (*old(state)) matches Some(s) ==> s.wf() && (match instruction {
            StakeInstruction::Stake { amount } => s.total_staked_sol + amount <= u64::MAX
                && s.total_lst_supply + spec_minted(s, amount) <= u64::MAX,
            StakeInstruction::AutoCompound => signer == s.admin
                ==> s.total_staked_sol + reward_amount <= u64::MAX,
            _ => true,
        }),
    ensures
        ({
            let (s2, r2) = spec_process(
                *old(state),
                instruction,
                signer,
                rent_exempt,
                reward_amount,
            );
            *final(state) == s2 && r == r2
        }),
        (*final(state)) matches Some(s) ==> s.wf(),
{
    match instruction {
        StakeInstruction::Initialize { total_staked_sol, lst_mint_pubkey } => {
            if state.is_some() {
                return Err(StakingError::InvalidInstruction);
            }
            if !rent_exempt {
                return Err(StakingError::NotRentExempt);
            }
            *state = Some(
                GlobalState {
                    total_staked_sol,
                    total_lst_supply: 0,
                    current_validator_pubkey: Identifier::zero(),
                    admin: signer,
                    lst_mint_pubkey,
                    pending_admin: None,
                },
            );
            Ok(None)
        },
        StakeInstruction::Stake { amount } => match *state {
            None => Err(StakingError::InvalidInstruction),
            Some(mut s) => match s.deposit(amount) {
                Ok(minted) => {
                    *state = Some(s);
                    Ok(Some(TokenAction::Mint { amount: minted }))
                },
                Err(e) => Err(e),
            },
        },
        StakeInstruction::Withdraw { lst_amount } => match *state {
            None => Err(StakingError::InvalidInstruction),
            Some(mut s) => match s.redeem(lst_amount) {
                Ok(returned) => {
                    *state = Some(s);
                    Ok(Some(TokenAction::Burn { lst_amount, sol_returned: returned }))
                },
                Err(e) => Err(e),
            },
        },
        StakeInstruction::AutoCompound => match *state {
            None => Err(StakingError::InvalidInstruction),
            Some(mut s) => match s.compound(signer, reward_amount) {
                Ok(_) => {
                    *state = Some(s);
                    Ok(None)
                },
                Err(e) => Err(e),
            },
        },
        StakeInstruction::Redelegate { new_validator_pubkey } => match *state {
            None => Err(StakingError::InvalidInstruction),
            Some(mut s) => match s.redelegate(signer, new_validator_pubkey) {
                Ok(_) => {
                    *state = Some(s);
                    Ok(None)
                },
                Err(e) => Err(e),
            },
        },
        StakeInstruction::ChangeAdminPropose { new_admin } => match *state {
            None => Err(StakingError::InvalidInstruction),
            Some(mut s) => match s.propose_admin(signer, new_admin) {
                Ok(_) => {
                    *state = Some(s);
                    Ok(None)
                },
                Err(e) => Err(e),
            },
        },
        StakeInstruction::ChangeAdminAccept => match *state {
            None => Err(StakingError::InvalidInstruction),
            Some(mut s) => match s.accept_admin(signer) {
                Ok(_) => {
                    *state = Some(s);
                    Ok(None)
                },
                Err(e) => Err(e),
            },
        },
    }
}

} // verus!
