//! The pool's global laws, each proved once and for all over the
//! spec-level transitions that the executable operations are verified
//! against.

use vstd::prelude::*;
use vstd::arithmetic::div_mod::{
    lemma_div_by_multiple, lemma_div_is_ordered, lemma_div_pos_is_pos, lemma_fundamental_div_mod,
};
use vstd::arithmetic::mul::lemma_mul_nonnegative;
use crate::accounting::{
    lemma_returned_le_principal, spec_compound, spec_deposit, spec_minted, spec_redeem,
};
use crate::authority::{spec_accept, spec_propose, spec_redelegate};
use crate::dispatch::{spec_process, StakeInstruction};
use crate::error::StakingError;
use crate::state::{GlobalState, Identifier};

verus! {

/// On a bootstrap pool (no claim supply outstanding) a deposit mints
/// claim units one-to-one with the deposited principal.
pub proof fn lemma_bootstrap_one_to_one(s: GlobalState, amount: u64)
    requires
        s.total_lst_supply == 0,
        amount > 0,
    ensures
        spec_deposit(s, amount) is Ok,
        spec_deposit(s, amount)->Ok_0.1 == amount,
{
}

/// Round-trip rate preservation: on a pool with claim supply outstanding,
/// depositing `amount` and then redeeming exactly the claim units minted
/// never returns more principal than was deposited — the only possible
/// difference is downward rounding loss, in the pool's favor.
pub proof fn lemma_deposit_redeem_round_trip(s: GlobalState, amount: u64)
    requires
        s.wf(),
        s.total_lst_supply > 0,
        amount > 0,
        s.total_staked_sol + amount <= u64::MAX,
        s.total_lst_supply + spec_minted(s, amount) <= u64::MAX,
    ensures
        spec_deposit(s, amount) is Ok,
        ({
            let (s1, minted) = spec_deposit(s, amount)->Ok_0;
            minted > 0 ==> spec_redeem(s1, minted) is Ok && spec_redeem(s1, minted)->Ok_0.1
                <= amount
        }),
{
    let p: int = s.total_staked_sol as int;
    let sup: int = s.total_lst_supply as int;
    let x: int = amount as int;
    let m: int = spec_minted(s, amount);
    lemma_mul_nonnegative(x, sup);
    lemma_div_pos_is_pos(x * sup, p);
    assert(m <= u64::MAX);
    let (s1, minted) = spec_deposit(s, amount)->Ok_0;
    assert(s1.total_staked_sol == p + x);
    assert(s1.total_lst_supply == sup + m);
    assert(minted == m);
    if minted > 0 {
        lemma_fundamental_div_mod(x * sup, p);
        assert(m * p <= x * sup) by (nonlinear_arith)
            requires
                x * sup == p * m + (x * sup) % p,
                0 <= (x * sup) % p,
        ;
        assert(m * (p + x) <= x * (sup + m)) by (nonlinear_arith)
            requires
                m * p <= x * sup,
                m >= 0,
                x >= 0,
        ;
        let ret: int = (m * (p + x)) / (sup + m);
        lemma_div_is_ordered(m * (p + x), x * (sup + m), sup + m);
        lemma_div_by_multiple(x, sup + m);
        assert(ret <= x);
        lemma_mul_nonnegative(m, p + x);
        lemma_div_pos_is_pos(m * (p + x), sup + m);
    }
}

/// Compounding a positive reward strictly increases the exchange rate:
/// the claim supply is unchanged while the principal grows, so the new
/// principal-to-supply ratio strictly exceeds the old one (stated by
/// cross-multiplication).
pub proof fn lemma_compound_strictly_increases_rate(
    s: GlobalState,
    signer: Identifier,
    reward_amount: u64,
)
    requires
        s.wf(),
        s.total_lst_supply > 0,
        reward_amount > 0,
        signer == s.admin,
        s.total_staked_sol + reward_amount <= u64::MAX,
    ensures
        spec_compound(s, signer, reward_amount) is Ok,
        ({
            let s2 = spec_compound(s, signer, reward_amount)->Ok_0;
            s2.total_lst_supply == s.total_lst_supply && s2.total_staked_sol * s.total_lst_supply
                > s.total_staked_sol * s2.total_lst_supply
        }),
{
    let s2 = spec_compound(s, signer, reward_amount)->Ok_0;
    assert(s2.total_staked_sol * s.total_lst_supply > s.total_staked_sol * s2.total_lst_supply)
        by (nonlinear_arith)
        requires
            s2.total_lst_supply == s.total_lst_supply,
            s.total_lst_supply >= 1,
            s2.total_staked_sol > s.total_staked_sol,
    ;
}

/// Authorization enforcement: a signer other than the current authority
/// is refused with `Unauthorized` by compounding, redelegation, and
/// proposal; acceptance is refused with `AdminChangeFailed` when no
/// proposal is outstanding, and with `Unauthorized` when one is but the
/// signer is not the proposed successor.
pub proof fn lemma_authorization_enforced(
    s: GlobalState,
    signer: Identifier,
    reward_amount: u64,
    target: Identifier,
)
    ensures
        signer != s.admin ==> spec_compound(s, signer, reward_amount) == Err::<
            GlobalState,
            StakingError,
        >(StakingError::Unauthorized),
        signer != s.admin ==> spec_redelegate(s, signer, target) == Err::<
            GlobalState,
            StakingError,
        >(StakingError::Unauthorized),
        signer != s.admin ==> spec_propose(s, signer, target) == Err::<
            GlobalState,
            StakingError,
        >(StakingError::Unauthorized),
        s.pending_admin is None ==> spec_accept(s, signer) == Err::<
            GlobalState,
            StakingError,
        >(StakingError::AdminChangeFailed),
        (s.pending_admin matches Some(p) && signer != p) ==> spec_accept(s, signer) == Err::<
            GlobalState,
            StakingError,
        >(StakingError::Unauthorized),
{
}

/// The two-phase handoff, end to end: from authority `a`, proposing `b`
/// records `b` as pending; acceptance signed by `b` commits `b` as the
/// authority and clears the proposal; after that, any further acceptance
/// — in particular one signed by the old authority — fails as
/// `AdminChangeFailed`.
pub proof fn lemma_two_phase_handoff(s: GlobalState, a: Identifier, b: Identifier)
    requires
        s.admin == a,
    ensures
        spec_propose(s, a, b) is Ok,
        ({
            let s1 = spec_propose(s, a, b)->Ok_0;
            s1.pending_admin == Some(b) && s1.admin == a && spec_accept(s1, b) is Ok && ({
                let s2 = spec_accept(s1, b)->Ok_0;
                s2.admin == b && s2.pending_admin is None && spec_accept(s2, a) == Err::<
                    GlobalState,
                    StakingError,
                >(StakingError::AdminChangeFailed)
            })
        }),
{
}

/// Invariant preservation: one dispatched operation — and hence, by
/// induction, any sequence of them — keeps the record well formed: the
/// claim supply is zero or the principal is positive. The two bounds
/// mirror the dispatcher's own machine-limit preconditions.
pub proof fn lemma_process_preserves_invariant(
    state: Option<GlobalState>,
    instruction: StakeInstruction,
    signer: Identifier,
    rent_exempt: bool,
    reward_amount: u64,
)
    requires
        state matches Some(s) ==> s.wf() && (match instruction {
            StakeInstruction::Stake { amount } => s.total_staked_sol + amount <= u64::MAX
                && s.total_lst_supply + spec_minted(s, amount) <= u64::MAX,
            StakeInstruction::AutoCompound => signer == s.admin ==> s.total_staked_sol
                + reward_amount <= u64::MAX,
            _ => true,
        }),
    ensures
        spec_process(state, instruction, signer, rent_exempt, reward_amount).0 matches Some(s2)
            ==> s2.wf(),
{
    if state is Some {
        let s = state->0;
        match instruction {
            StakeInstruction::Stake { amount } => {
                if amount > 0 {
                    lemma_mul_nonnegative(amount as int, s.total_lst_supply as int);
                    if s.total_lst_supply > 0 {
                        lemma_div_pos_is_pos(
                            amount * s.total_lst_supply,
                            s.total_staked_sol as int,
                        );
                    }
                    assert(spec_minted(s, amount) >= 0);
                }
            },
            StakeInstruction::Withdraw { lst_amount } => {
                if 0 < lst_amount <= s.total_lst_supply {
                    lemma_returned_le_principal(s, lst_amount);
                }
            },
            _ => {},
        }
    }
}

} // verus!
