use lst::codec::{decode, encode};
use lst::dispatch::{process, StakeInstruction, TokenAction};
use lst::error::StakingError;
use lst::state::{GlobalState, Identifier, UserAccount};

fn id(n: u64) -> Identifier {
    Identifier { w0: n, w1: 0, w2: n, w3: 7 }
}

fn initialized(admin: Identifier) -> Option<GlobalState> {
    let mut st: Option<GlobalState> = None;
    let r = process(
        &mut st,
        StakeInstruction::Initialize { total_staked_sol: 0, lst_mint_pubkey: id(200) },
        admin,
        true,
        0,
    );
    assert_eq!(r, Ok(None));
    st
}

#[test]
fn initialize_binds_admin_and_mint() {
    let st = initialized(id(1)).unwrap();
    assert_eq!(st.admin, id(1));
    assert_eq!(st.lst_mint_pubkey, id(200));
    assert_eq!(st.total_staked_sol, 0);
    assert_eq!(st.total_lst_supply, 0);
    assert_eq!(st.pending_admin, None);
}

#[test]
fn initialize_requires_rent_exemption() {
    let mut st: Option<GlobalState> = None;
    let r = process(
        &mut st,
        StakeInstruction::Initialize { total_staked_sol: 5, lst_mint_pubkey: id(200) },
        id(1),
        false,
        0,
    );
    assert_eq!(r, Err(StakingError::NotRentExempt));
    assert!(st.is_none());
}

#[test]
fn reinitialize_is_refused() {
    let mut st = initialized(id(1));
    let before = st;
    let r = process(
        &mut st,
        StakeInstruction::Initialize { total_staked_sol: 9, lst_mint_pubkey: id(201) },
        id(2),
        true,
        0,
    );
    assert_eq!(r, Err(StakingError::InvalidInstruction));
    assert_eq!(st, before);
}

#[test]
fn operations_before_initialization_are_refused() {
    let mut st: Option<GlobalState> = None;
    let r = process(&mut st, StakeInstruction::Stake { amount: 5 }, id(1), true, 0);
    assert_eq!(r, Err(StakingError::InvalidInstruction));
    let r = process(&mut st, StakeInstruction::ChangeAdminAccept, id(1), true, 0);
    assert_eq!(r, Err(StakingError::InvalidInstruction));
    assert!(st.is_none());
}

#[test]
fn stake_reports_mint_action() {
    let mut st = initialized(id(1));
    let r = process(&mut st, StakeInstruction::Stake { amount: 1000 }, id(9), true, 0);
    assert_eq!(r, Ok(Some(TokenAction::Mint { amount: 1000 })));
    assert_eq!(st.unwrap().total_lst_supply, 1000);
}

#[test]
fn withdraw_reports_burn_action() {
    let mut st = initialized(id(1));
    process(&mut st, StakeInstruction::Stake { amount: 1000 }, id(9), true, 0).unwrap();
    process(&mut st, StakeInstruction::AutoCompound, id(1), true, 100).unwrap();
    let r = process(&mut st, StakeInstruction::Withdraw { lst_amount: 500 }, id(9), true, 0);
    assert_eq!(r, Ok(Some(TokenAction::Burn { lst_amount: 500, sol_returned: 550 })));
    let s = st.unwrap();
    assert_eq!(s.total_staked_sol, 550);
    assert_eq!(s.total_lst_supply, 500);
}

#[test]
fn dispatched_admin_operations_check_the_signer() {
    let mut st = initialized(id(1));
    let r = process(&mut st, StakeInstruction::AutoCompound, id(2), true, 100);
    assert_eq!(r, Err(StakingError::Unauthorized));
    let r = process(
        &mut st,
        StakeInstruction::Redelegate { new_validator_pubkey: id(50) },
        id(2),
        true,
        0,
    );
    assert_eq!(r, Err(StakingError::Unauthorized));
    let r = process(
        &mut st,
        StakeInstruction::ChangeAdminPropose { new_admin: id(2) },
        id(2),
        true,
        0,
    );
    assert_eq!(r, Err(StakingError::Unauthorized));
    let r = process(
        &mut st,
        StakeInstruction::ChangeAdminPropose { new_admin: id(2) },
        id(1),
        true,
        0,
    );
    assert_eq!(r, Ok(None));
    let r = process(&mut st, StakeInstruction::ChangeAdminAccept, id(2), true, 0);
    assert_eq!(r, Ok(None));
    assert_eq!(st.unwrap().admin, id(2));
}

#[test]
fn encoded_record_is_fixed_width_with_exact_bytes() {
    let s = GlobalState {
        total_staked_sol: 258, // 0x0102: bytes 2, 1 little-endian
        total_lst_supply: 1,
        current_validator_pubkey: Identifier { w0: 0, w1: 0, w2: 0, w3: 0 },
        admin: Identifier { w0: 5, w1: 0, w2: 0, w3: 0 },
        lst_mint_pubkey: Identifier { w0: 0, w1: 0, w2: 0, w3: 0 },
        pending_admin: None,
    };
    let b = encode(&s);
    assert_eq!(b.len(), 145);
    assert_eq!(&b[0..8], &[2, 1, 0, 0, 0, 0, 0, 0]);
    assert_eq!(&b[8..16], &[1, 0, 0, 0, 0, 0, 0, 0]);
    assert_eq!(b[48], 5); // first byte of the admin identity
    assert_eq!(b[112], 0); // no pending successor
    assert!(b[113..145].iter().all(|&x| x == 0));
}

#[test]
fn codec_round_trips_with_and_without_pending_admin() {
    let mut s = GlobalState {
        total_staked_sol: u64::MAX,
        total_lst_supply: 0x0807060504030201,
        current_validator_pubkey: id(11),
        admin: id(12),
        lst_mint_pubkey: id(13),
        pending_admin: None,
    };
    assert_eq!(decode(&encode(&s)), Ok(s));
    s.pending_admin = Some(id(14));
    let b = encode(&s);
    assert_eq!(b[112], 1);
    assert_eq!(decode(&b), Ok(s));
}

#[test]
fn decode_refuses_bad_length_and_bad_flag() {
    let s = GlobalState {
        total_staked_sol: 1,
        total_lst_supply: 1,
        current_validator_pubkey: id(1),
        admin: id(2),
        lst_mint_pubkey: id(3),
        pending_admin: None,
    };
    let mut b = encode(&s);
    b.push(0);
    assert_eq!(decode(&b), Err(StakingError::InvalidInstruction));
    b.pop();
    b[112] = 2;
    assert_eq!(decode(&b), Err(StakingError::InvalidInstruction));
}

#[test]
fn error_codes_follow_declaration_order() {
    assert_eq!(StakingError::InvalidInstruction.code(), 0);
    assert_eq!(StakingError::NotRentExempt.code(), 1);
    assert_eq!(StakingError::InsufficientFunds.code(), 2);
    assert_eq!(StakingError::Unauthorized.code(), 3);
    assert_eq!(StakingError::AdminChangeFailed.code(), 4);
}

#[test]
fn user_account_holds_balance_and_owner() {
    let u = UserAccount { lst_balance: 250, owner: id(77) };
    assert_eq!(u.lst_balance, 250);
    assert_eq!(u.owner, id(77));
}
