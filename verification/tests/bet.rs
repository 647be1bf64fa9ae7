use chain_contracts::bet::claude_ps1_bet;
use chain_contracts::bet::claude_ps7;
use chain_contracts::bet::copilot_ps1_bet;
use chain_contracts::bet::gpt_ps1;
use chain_contracts::bet::gpt_ps1_bet;
use chain_contracts::bet::gpt_ps2;
use chain_contracts::bet::gpt_ps3;
use chain_contracts::bet::gpt_ps3_bet;
use chain_contracts::bet::model::{Payment, Refund, Wagers};
use chain_contracts::common::Pubkey;

fn key(b: u8) -> Pubkey {
    Pubkey { bytes: [b; 32] }
}

fn derived(p1: &Pubkey, p2: &Pubkey, program_id: &Pubkey) -> Pubkey {
    let id = anchor_lang::prelude::Pubkey::new_from_array(program_id.bytes);
    let (pda, _) = anchor_lang::prelude::Pubkey::find_program_address(&[&p1.bytes, &p2.bytes], &id);
    Pubkey { bytes: pda.to_bytes() }
}

#[test]
fn claude_ps1_bet_oracle_pays_pot_once() {
    let (mut bet, wagers) = claude_ps1_bet::join(key(1), key(2), key(3), 10, 100, 50).unwrap();
    assert_eq!(wagers, Wagers { from_participant1: 100, from_participant2: 100 });
    assert_eq!((bet.deadline, bet.total_pot), (60, 200));
    let r = claude_ps1_bet::win(&mut bet, key(3), key(2), 60, 1200, 1000);
    assert_eq!(r, Ok(Payment { to: key(2), amount: 200 }));
    assert_eq!(bet.state, claude_ps1_bet::BetState::Resolved);
    let again = claude_ps1_bet::win(&mut bet, key(3), key(2), 60, 1200, 1000);
    assert_eq!(again, Err(claude_ps1_bet::BettingError::BetAlreadyResolved));
    let refund = claude_ps1_bet::timeout(&mut bet, key(1), key(2), true, 61, 1200, 1000);
    assert_eq!(refund, Err(claude_ps1_bet::BettingError::BetAlreadyResolved));
}

#[test]
fn claude_ps1_bet_refusals() {
    let (mut bet, _) = claude_ps1_bet::join(key(1), key(2), key(3), 10, 100, 50).unwrap();
    let before = bet;
    assert_eq!(
        claude_ps1_bet::win(&mut bet, key(4), key(2), 55, 5000, 0),
        Err(claude_ps1_bet::BettingError::InvalidOracle)
    );
    assert_eq!(
        claude_ps1_bet::win(&mut bet, key(3), key(5), 55, 5000, 0),
        Err(claude_ps1_bet::BettingError::InvalidWinner)
    );
    assert_eq!(
        claude_ps1_bet::win(&mut bet, key(3), key(1), 61, 5000, 0),
        Err(claude_ps1_bet::BettingError::DeadlinePassed)
    );
    assert_eq!(
        claude_ps1_bet::win(&mut bet, key(3), key(1), 55, 1199, 1000),
        Err(claude_ps1_bet::BettingError::InsufficientFunds)
    );
    assert_eq!(
        claude_ps1_bet::timeout(&mut bet, key(1), key(2), true, 60, 5000, 0),
        Err(claude_ps1_bet::BettingError::DeadlineNotReached)
    );
    assert_eq!(bet, before);
    assert_eq!(
        claude_ps1_bet::timeout(&mut bet, key(1), key(1), true, 61, 1200, 1000),
        Err(claude_ps1_bet::BettingError::InvalidParticipant)
    );
    assert_eq!(
        claude_ps1_bet::timeout(&mut bet, key(2), key(1), false, 61, 1200, 1000),
        Err(claude_ps1_bet::BettingError::AccountNotSigner)
    );
    assert_eq!(
        claude_ps1_bet::timeout(&mut bet, key(2), key(1), true, 61, 1200, 1000),
        Ok(Refund { to_participant1: 100, to_participant2: 100 })
    );
}

#[test]
fn claude_ps1_bet_join_refusals() {
    assert_eq!(
        claude_ps1_bet::join(key(1), key(2), key(3), 10, 0, 50),
        Err(claude_ps1_bet::BettingError::InvalidWager)
    );
    assert_eq!(
        claude_ps1_bet::join(key(1), key(2), key(3), 0, 1, 50),
        Err(claude_ps1_bet::BettingError::InvalidDelay)
    );
    assert_eq!(
        claude_ps1_bet::join(key(1), key(2), key(3), 1, 1, u64::MAX),
        Err(claude_ps1_bet::BettingError::ArithmeticOverflow)
    );
}

#[test]
fn claude_ps7_pays_only_from_derived_address() {
    let program_id = key(77);
    let (p1, p2) = (key(1), key(2));
    let pda = derived(&p1, &p2, &program_id);
    let (mut bet, _) = claude_ps7::join(p1, p2, key(3), 10, 40, 0).unwrap();
    let r = claude_ps7::win(&mut bet, key(3), p1, p1, p2, program_id, key(9), 5);
    assert_eq!(r, Err(claude_ps7::BettingError::InvalidPDA));
    assert!(bet.is_active);
    let r = claude_ps7::win(&mut bet, key(3), p1, p1, p2, program_id, pda, 5);
    assert_eq!(r, Ok(Payment { to: p1, amount: 80 }));
    assert!(!bet.is_active);
}

#[test]
fn claude_ps7_refund_from_derived_address() {
    let program_id = key(77);
    let (p1, p2) = (key(1), key(2));
    let pda = derived(&p1, &p2, &program_id);
    let (mut bet, _) = claude_ps7::join(p1, p2, key(3), 10, 40, 0).unwrap();
    assert_eq!(
        claude_ps7::timeout(&mut bet, p1, p2, program_id, pda, 9),
        Err(claude_ps7::BettingError::DeadlineNotPassed)
    );
    assert_eq!(
        claude_ps7::timeout(&mut bet, p2, p1, program_id, pda, 10),
        Err(claude_ps7::BettingError::InvalidPDA)
    );
    assert_eq!(
        claude_ps7::timeout(&mut bet, p1, p2, program_id, pda, 10),
        Ok(Refund { to_participant1: 40, to_participant2: 40 })
    );
}

fn encoded_bet(wager: u64, deadline: u64) -> Vec<u8> {
    let mut data = Vec::new();
    data.extend_from_slice(&[1u8; 32]);
    data.extend_from_slice(&[2u8; 32]);
    data.extend_from_slice(&[3u8; 32]);
    data.extend_from_slice(&wager.to_le_bytes());
    data.extend_from_slice(&deadline.to_le_bytes());
    data.push(0);
    data.push(251);
    data
}

#[test]
fn copilot_ps1_bet_decodes_fields() {
    let data = encoded_bet(0x0102_0304_0506_0708, 999);
    let bet = copilot_ps1_bet::decode_bet_info(&data).unwrap();
    assert_eq!(bet.participant1, key(1));
    assert_eq!(bet.participant2, key(2));
    assert_eq!(bet.oracle, key(3));
    assert_eq!(bet.wager, 0x0102_0304_0506_0708);
    assert_eq!(bet.deadline, 999);
    assert_eq!(bet.state, copilot_ps1_bet::BetState::Active);
    assert_eq!(bet.bump, 251);
    let mut bad = data.clone();
    bad[112] = 2;
    assert!(copilot_ps1_bet::decode_bet_info(&bad).is_none());
}

#[test]
fn copilot_ps1_bet_win_marks_bytes_resolved() {
    let mut data = encoded_bet(70, 100);
    let r = copilot_ps1_bet::win(&mut data, key(3), key(2), 100);
    assert_eq!(r, Ok(Payment { to: key(2), amount: 140 }));
    assert_eq!(data[112], 1);
    let again = copilot_ps1_bet::win(&mut data, key(3), key(2), 100);
    assert_eq!(again, Err(copilot_ps1_bet::BetError::AlreadyResolved));
}

#[test]
fn copilot_ps1_bet_win_refuses_tagged_account() {
    let mut data = vec![0u8; 8];
    data.extend_from_slice(&encoded_bet(70, 100));
    let before = data.clone();
    let r = copilot_ps1_bet::win(&mut data, key(3), key(2), 100);
    assert_eq!(r, Err(copilot_ps1_bet::BetError::InvalidBetAccount));
    assert_eq!(data, before);
}

#[test]
fn gpt_ps1_join_stores_smaller_key_first() {
    let (bet, wagers) = gpt_ps1::join(key(9), key(3), key(5), 20, 7, 100, 200).unwrap();
    assert_eq!(bet.participant1, key(3));
    assert_eq!(bet.participant2, key(9));
    assert_eq!(bet.deadline, 120);
    assert_eq!(wagers, Wagers { from_participant1: 7, from_participant2: 7 });
    let mut a = key(4);
    a.bytes[31] = 0;
    let (bet, _) = gpt_ps1::join(key(4), a, key(5), 20, 7, 100, 200).unwrap();
    assert_eq!(bet.participant1, a);
    assert!(matches!(gpt_ps1::join(key(1), key(2), key(5), 20, 0, 100, 200), Err(gpt_ps1::BetError::InvalidWager)));
}

#[test]
fn gpt_ps1_timeout_splits_whole_balance() {
    let (bet, _) = gpt_ps1::join(key(1), key(2), key(5), 20, 7, 100, 200).unwrap();
    assert_eq!(gpt_ps1::timeout(&bet, 120, 1001), Err(gpt_ps1::BetError::DeadlineNotPassed));
    assert_eq!(gpt_ps1::timeout(&bet, 121, 1001), Ok(Refund { to_participant1: 500, to_participant2: 501 }));
    assert_eq!(gpt_ps1::win(&bet, key(5), key(2), key(1), key(2)), Ok(Payment { to: key(2), amount: 14 }));
    assert_eq!(gpt_ps1::win(&bet, key(5), key(6), key(1), key(2)), Err(gpt_ps1::BetError::InvalidWinner));
    assert_eq!(gpt_ps1::win(&bet, key(4), key(2), key(1), key(2)), Err(gpt_ps1::BetError::ConstraintHasOne));
}

fn fresh_gpt_ps1_bet() -> gpt_ps1_bet::BetInfo {
    gpt_ps1_bet::BetInfo {
        participant1: key(0),
        participant2: key(0),
        oracle: key(0),
        resolved: false,
        winner: key(0),
        bump: 0,
        initialized: false,
        wager: 0,
        deadline_slot: 0,
    }
}

#[test]
fn gpt_ps1_bet_round() {
    let mut bet = fresh_gpt_ps1_bet();
    let r = gpt_ps1_bet::join(&mut bet, key(1), key(2), key(3), true, true, 30, 25, 70, 254);
    assert_eq!(r, Ok(Wagers { from_participant1: 25, from_participant2: 25 }));
    assert!(bet.initialized && !bet.resolved);
    assert_eq!((bet.deadline_slot, bet.bump), (100, 254));
    let again = gpt_ps1_bet::join(&mut bet, key(1), key(2), key(3), true, true, 30, 25, 70, 254);
    assert_eq!(again, Err(gpt_ps1_bet::Failure::Bet(gpt_ps1_bet::BetError::AlreadyInitialized)));
    let r = gpt_ps1_bet::win(&mut bet, key(3), key(1), key(1), key(2));
    assert_eq!(r, Ok(Payment { to: key(1), amount: 50 }));
    assert!(bet.resolved);
    let r = gpt_ps1_bet::win(&mut bet, key(3), key(1), key(1), key(2));
    assert_eq!(r, Err(gpt_ps1_bet::Failure::Custom(gpt_ps1_bet::CustomError::AlreadyResolved)));
}

#[test]
fn gpt_ps1_bet_refusals() {
    let mut bet = fresh_gpt_ps1_bet();
    let join = |bet: &mut gpt_ps1_bet::BetInfo, p2: Pubkey, oracle: Pubkey, signed2: bool, wager: u64| {
        gpt_ps1_bet::join(bet, key(1), p2, oracle, true, signed2, 30, wager, 70, 1)
    };
    assert_eq!(
        join(&mut bet, key(2), key(3), false, 5),
        Err(gpt_ps1_bet::Failure::Bet(gpt_ps1_bet::BetError::MissingParticipantSignature))
    );
    assert_eq!(join(&mut bet, key(2), key(3), true, 0), Err(gpt_ps1_bet::Failure::Bet(gpt_ps1_bet::BetError::InvalidWager)));
    assert_eq!(join(&mut bet, key(1), key(3), true, 5), Err(gpt_ps1_bet::Failure::RequireKeysNeqViolated));
    assert_eq!(join(&mut bet, key(2), key(0), true, 5), Err(gpt_ps1_bet::Failure::Bet(gpt_ps1_bet::BetError::InvalidOracle)));
    assert_eq!(bet, fresh_gpt_ps1_bet());
    join(&mut bet, key(2), key(3), true, 5).unwrap();
    assert_eq!(
        gpt_ps1_bet::win(&mut bet, key(4), key(1), key(1), key(2)),
        Err(gpt_ps1_bet::Failure::Bet(gpt_ps1_bet::BetError::InvalidOracle))
    );
    assert_eq!(
        gpt_ps1_bet::win(&mut bet, key(3), key(7), key(1), key(2)),
        Err(gpt_ps1_bet::Failure::Custom(gpt_ps1_bet::CustomError::InvalidWinner))
    );
    assert_eq!(
        gpt_ps1_bet::timeout(&mut bet, false, false, 200),
        Err(gpt_ps1_bet::Failure::Bet(gpt_ps1_bet::BetError::MissingParticipantSignature))
    );
    assert_eq!(
        gpt_ps1_bet::timeout(&mut bet, true, false, 100),
        Err(gpt_ps1_bet::Failure::Bet(gpt_ps1_bet::BetError::DeadlineNotReached))
    );
    assert_eq!(
        gpt_ps1_bet::timeout(&mut bet, false, true, 101),
        Ok(Refund { to_participant1: 5, to_participant2: 5 })
    );
    assert!(bet.resolved);
}

#[test]
fn gpt_ps2_win_gives_whole_balance() {
    let (mut bet, _) = gpt_ps2::join(key(1), key(2), key(3), 10, 60, 0).unwrap();
    assert_eq!(
        gpt_ps2::win(&mut bet, key(4), key(1), key(1), key(2), 2000),
        Err(gpt_ps2::ErrorCode::Unauthorized)
    );
    assert_eq!(gpt_ps2::win(&mut bet, key(3), key(1), key(1), key(2), 2000), Ok(Payment { to: key(1), amount: 2000 }));
    assert!(bet.settled);
    assert_eq!(
        gpt_ps2::win(&mut bet, key(3), key(1), key(1), key(2), 2000),
        Err(gpt_ps2::ErrorCode::AlreadySettled)
    );
}

#[test]
fn gpt_ps2_timeout_checks_participants() {
    let (mut bet, _) = gpt_ps2::join(key(1), key(2), key(3), 10, 60, 0).unwrap();
    assert_eq!(gpt_ps2::timeout(&mut bet, key(2), key(1), 11), Err(gpt_ps2::ErrorCode::InvalidParticipants));
    assert_eq!(gpt_ps2::timeout(&mut bet, key(1), key(2), 10), Err(gpt_ps2::ErrorCode::DeadlineNotReached));
    assert_eq!(
        gpt_ps2::timeout(&mut bet, key(1), key(2), 11),
        Ok(Refund { to_participant1: 60, to_participant2: 60 })
    );
    assert!(matches!(gpt_ps2::join(key(1), key(2), key(3), 1, 60, u64::MAX), Err(gpt_ps2::ErrorCode::NumericOverflow)));
}

#[test]
fn gpt_ps3_win_pays_pot_then_rest() {
    let (mut bet, _) = gpt_ps3::join(key(1), key(2), key(3), 10, 500, 0, 9).unwrap();
    let r = gpt_ps3::win(&mut bet, key(3), key(2), key(1), key(2), 10, 1500);
    assert_eq!(r, Ok((Payment { to: key(2), amount: 1000 }, Payment { to: key(1), amount: 500 })));
    assert!(bet.settled);
    assert_eq!(bet.wager, 0);
}

#[test]
fn gpt_ps3_refusals_and_refund() {
    assert!(matches!(gpt_ps3::join(key(1), key(1), key(3), 10, 5, 0, 9), Err(gpt_ps3::BetError::SameParticipant)));
    let (mut bet, _) = gpt_ps3::join(key(1), key(2), key(3), 10, 500, 0, 9).unwrap();
    assert_eq!(gpt_ps3::win(&mut bet, key(3), key(2), key(1), key(2), 11, 1500), Err(gpt_ps3::BetError::DeadlinePassed));
    assert_eq!(gpt_ps3::win(&mut bet, key(3), key(2), key(1), key(2), 5, 999), Err(gpt_ps3::BetError::InsufficientPot));
    assert_eq!(gpt_ps3::win(&mut bet, key(8), key(2), key(1), key(2), 5, 1500), Err(gpt_ps3::BetError::InvalidOracle));
    assert_eq!(gpt_ps3::timeout(&mut bet, key(1), false, false, 10, 1500), Err(gpt_ps3::BetError::Unauthorized));
    assert_eq!(gpt_ps3::timeout(&mut bet, key(1), true, false, 9, 1500), Err(gpt_ps3::BetError::DeadlineNotReached));
    let r = gpt_ps3::timeout(&mut bet, key(1), false, true, 10, 1234);
    assert_eq!(
        r,
        Ok((Refund { to_participant1: 500, to_participant2: 500 }, Payment { to: key(1), amount: 234 }))
    );
    assert!(bet.settled);
}

#[test]
fn gpt_ps3_bet_round_and_refusals() {
    let mut bet = gpt_ps3_bet::BetInfo {
        participant1: key(0),
        participant2: key(0),
        oracle: key(0),
        wager: 0,
        deadline: 0,
        resolved: false,
        initialized: false,
        bump: 0,
    };
    assert_eq!(
        gpt_ps3_bet::join(&mut bet, key(1), key(2), key(3), true, true, 0, 5, 0, 1),
        Err(gpt_ps3_bet::BetError::InvalidDelay)
    );
    assert_eq!(
        gpt_ps3_bet::join(&mut bet, key(1), key(2), key(3), false, true, 4, 5, 0, 1),
        Err(gpt_ps3_bet::BetError::MissingParticipantSignatures)
    );
    assert_eq!(
        gpt_ps3_bet::join(&mut bet, key(1), key(2), key(3), true, true, 4, 5, 10, 1),
        Ok(Wagers { from_participant1: 5, from_participant2: 5 })
    );
    assert_eq!(bet.deadline, 14);
    assert_eq!(
        gpt_ps3_bet::win(&mut bet, key(3), false, key(1), 14, 100),
        Err(gpt_ps3_bet::BetError::MissingOracleSignature)
    );
    assert_eq!(gpt_ps3_bet::win(&mut bet, key(3), true, key(1), 14, 9), Err(gpt_ps3_bet::BetError::NotFunded));
    assert_eq!(gpt_ps3_bet::timeout(&mut bet, true, true, 14, 100), Err(gpt_ps3_bet::BetError::DeadlineNotReached));
    assert_eq!(
        gpt_ps3_bet::timeout(&mut bet, true, false, 15, 100),
        Ok(Refund { to_participant1: 5, to_participant2: 5 })
    );
    assert_eq!(gpt_ps3_bet::win(&mut bet, key(3), true, key(1), 14, 100), Err(gpt_ps3_bet::BetError::AlreadyResolved));
}

#[test]
fn copilot_ps1_bet_timeout_refunds_only_stored_participants() {
    let mut bet = copilot_ps1_bet::decode_bet_info(&encoded_bet(70, 100)).unwrap();
    assert_eq!(
        copilot_ps1_bet::timeout(&mut bet, key(2), key(1), 101, true, false),
        Err(copilot_ps1_bet::BetError::ConstraintHasOne)
    );
    assert_eq!(
        copilot_ps1_bet::timeout(&mut bet, key(1), key(2), 100, true, false),
        Err(copilot_ps1_bet::BetError::DeadlineNotReached)
    );
    assert_eq!(
        copilot_ps1_bet::timeout(&mut bet, key(1), key(2), 101, false, false),
        Err(copilot_ps1_bet::BetError::UnauthorizedParticipant)
    );
    assert_eq!(
        copilot_ps1_bet::timeout(&mut bet, key(1), key(2), 101, false, true),
        Ok(Refund { to_participant1: 70, to_participant2: 70 })
    );
    assert_eq!(bet.state, copilot_ps1_bet::BetState::Resolved);
}
