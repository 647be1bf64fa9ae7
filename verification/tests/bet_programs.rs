use chain_contracts::bet::claude_ps2_bet;
use chain_contracts::bet::claude_ps3_bet;
use chain_contracts::bet::claude_ps9;
use chain_contracts::bet::copilot_ps2_bet;
use chain_contracts::bet::copilot_ps3_bet;
use chain_contracts::bet::deepseek_ps1_bet;
use chain_contracts::bet::claude_ps2;
use chain_contracts::bet::copilot_ps1;
use chain_contracts::bet::copilot_ps3;
use chain_contracts::bet::copilot_ps7;
use chain_contracts::bet::deepseek_ps2;
use chain_contracts::bet::deepseek_ps2_bet;
use chain_contracts::bet::deepseek_ps3;
use chain_contracts::bet::deepseek_ps3_bet;
use chain_contracts::bet::deepseek_ps7;
use chain_contracts::bet::model::{Payment, Refund, Wagers};
use chain_contracts::common::Pubkey;
use chain_contracts::bet::copilot_ps7::ErrorCode as E7;
use chain_contracts::bet::deepseek_ps2_bet::BetError as D2;
use chain_contracts::bet::deepseek_ps3_bet::ErrorCode as D3;
use chain_contracts::bet::claude_ps2_bet::BettingError as ClaudePs2BetError;
use chain_contracts::bet::claude_ps3_bet::BettingError as ClaudePs3BetError;
use chain_contracts::bet::claude_ps9::BettingError as ClaudePs9Error;
use chain_contracts::bet::copilot_ps2_bet::ErrorCode as CopilotPs2BetError;
use chain_contracts::bet::copilot_ps3_bet::ErrorCode as CopilotPs3BetError;
use chain_contracts::bet::deepseek_ps1_bet::BetError as DeepseekPs1BetError;

fn key(b: u8) -> Pubkey {
    Pubkey { bytes: [b; 32] }
}

#[test]
fn claude_ps2_bet_checks_balances() {
    assert_eq!(claude_ps2_bet::join(key(1), key(2), key(3), 5, 0, 10, 1), Err(ClaudePs2BetError::InvalidWager));
    assert_eq!(claude_ps2_bet::join(key(1), key(2), key(3), 1, 5, u64::MAX, 1), Err(ClaudePs2BetError::ArithmeticOverflow));
    let (mut bet, w) = claude_ps2_bet::join(key(1), key(2), key(3), 5, 30, 10, 1).unwrap();
    assert_eq!(w, Wagers { from_participant1: 30, from_participant2: 30 });
    assert_eq!(bet.deadline, 15);
    assert_eq!(claude_ps2_bet::win(&mut bet, key(3), key(1), 16, 100, 0), Err(ClaudePs2BetError::DeadlinePassed));
    assert_eq!(claude_ps2_bet::win(&mut bet, key(9), key(1), 15, 100, 0), Err(ClaudePs2BetError::UnauthorizedOracle));
    assert_eq!(claude_ps2_bet::win(&mut bet, key(3), key(9), 15, 100, 0), Err(ClaudePs2BetError::InvalidWinner));
    assert_eq!(claude_ps2_bet::win(&mut bet, key(3), key(1), 15, 59, 0), Err(ClaudePs2BetError::InsufficientFunds));
    assert_eq!(claude_ps2_bet::win(&mut bet, key(3), key(1), 15, 60, u64::MAX - 59), Err(ClaudePs2BetError::ArithmeticOverflow));
    assert_eq!(claude_ps2_bet::timeout(&mut bet, key(1), key(2), 15, 60, 0, 0), Err(ClaudePs2BetError::DeadlineNotReached));
    assert_eq!(claude_ps2_bet::timeout(&mut bet, key(2), key(2), 16, 60, 0, 0), Err(ClaudePs2BetError::InvalidParticipant));
    assert_eq!(claude_ps2_bet::timeout(&mut bet, key(1), key(2), 16, 60, u64::MAX, 0), Err(ClaudePs2BetError::ArithmeticOverflow));
    assert_eq!(bet.state, claude_ps2_bet::BetState::Active);
    assert_eq!(claude_ps2_bet::win(&mut bet, key(3), key(1), 15, 60, 0), Ok(Payment { to: key(1), amount: 60 }));
    assert_eq!(bet.state, claude_ps2_bet::BetState::Resolved);
    assert_eq!(claude_ps2_bet::timeout(&mut bet, key(1), key(2), 16, 60, 0, 0), Err(ClaudePs2BetError::BetAlreadyResolved));
}

#[test]
fn claude_ps2_bet_refund() {
    let (mut bet, _) = claude_ps2_bet::join(key(1), key(2), key(3), 5, 30, 10, 1).unwrap();
    assert_eq!(
        claude_ps2_bet::timeout(&mut bet, key(1), key(2), 16, 60, 0, 0),
        Ok(Refund { to_participant1: 30, to_participant2: 30 })
    );
    assert_eq!(
        claude_ps2_bet::win(&mut bet, key(3), key(1), 15, 60, 0),
        Err(claude_ps2_bet::BettingError::BetAlreadyResolved)
    );
}

#[test]
fn claude_ps3_bet_round() {
    assert_eq!(claude_ps3_bet::join(key(1), key(2), key(3), 0, 5, 0), Err(ClaudePs3BetError::InvalidDelay));
    assert_eq!(claude_ps3_bet::join(key(1), key(2), key(3), 4, 0, 0), Err(ClaudePs3BetError::InvalidWager));
    let (mut bet, _) = claude_ps3_bet::join(key(1), key(2), key(3), 4, 5, 6).unwrap();
    assert_eq!(bet.deadline, 10);
    assert_eq!(claude_ps3_bet::win(&mut bet, key(2), key(1), 10), Err(ClaudePs3BetError::InvalidOracle));
    assert_eq!(claude_ps3_bet::win(&mut bet, key(3), key(1), 11), Err(ClaudePs3BetError::DeadlinePassed));
    assert_eq!(claude_ps3_bet::timeout(&mut bet, 10), Err(ClaudePs3BetError::DeadlineNotReached));
    assert_eq!(claude_ps3_bet::win(&mut bet, key(3), key(2), 10), Ok(Payment { to: key(2), amount: 10 }));
    assert!(bet.is_resolved);
    assert_eq!(claude_ps3_bet::win(&mut bet, key(3), key(2), 10), Err(ClaudePs3BetError::BetAlreadyResolved));
    assert_eq!(claude_ps3_bet::timeout(&mut bet, 11), Err(ClaudePs3BetError::BetAlreadyResolved));
}

#[test]
fn claude_ps9_join_needs_funded_distinct_participants() {
    assert!(matches!(claude_ps9::join(key(1), key(2), key(3), 4, 10, 0, 9, 10), Err(ClaudePs9Error::InsufficientFunds)));
    assert!(matches!(claude_ps9::join(key(1), key(1), key(3), 4, 10, 0, 10, 10), Err(ClaudePs9Error::SameParticipant)));
    assert!(matches!(claude_ps9::join(key(1), key(2), key(3), 0, 10, 0, 10, 10), Err(ClaudePs9Error::InvalidDelay)));
    let (mut bet, w) = claude_ps9::join(key(1), key(2), key(3), 4, 10, 0, 10, 10).unwrap();
    assert_eq!(w, Wagers { from_participant1: 10, from_participant2: 10 });
    assert_eq!(claude_ps9::win(&mut bet, key(1), key(1), 4), Err(ClaudePs9Error::UnauthorizedOracle));
    assert_eq!(claude_ps9::win(&mut bet, key(3), key(1), 5), Err(ClaudePs9Error::DeadlinePassed));
    // Both stored participants must be among the accounts given, in either order.
    assert_eq!(claude_ps9::timeout(&mut bet, key(1), key(1), 5), Err(ClaudePs9Error::InvalidParticipant));
    assert_eq!(claude_ps9::timeout(&mut bet, key(1), key(4), 5), Err(ClaudePs9Error::InvalidParticipant));
    assert_eq!(claude_ps9::timeout(&mut bet, key(2), key(1), 5), Ok(Refund { to_participant1: 10, to_participant2: 10 }));
    assert!(!bet.is_active);
    assert_eq!(claude_ps9::win(&mut bet, key(3), key(1), 4), Err(ClaudePs9Error::BetNotActive));
}

#[test]
fn copilot_ps2_bet_round() {
    assert!(matches!(copilot_ps2_bet::join(key(1), key(2), key(3), 1, 5, u64::MAX, 0), Err(CopilotPs2BetError::Overflow)));
    let (mut bet, _) = copilot_ps2_bet::join(key(1), key(2), key(3), 10, 5, 0, 7).unwrap();
    assert_eq!(copilot_ps2_bet::win(&mut bet, key(4), key(1), 10, 10, 0), Err(CopilotPs2BetError::InvalidOracle));
    assert_eq!(copilot_ps2_bet::win(&mut bet, key(3), key(1), 10, 9, 0), Err(CopilotPs2BetError::Overflow));
    assert_eq!(copilot_ps2_bet::win(&mut bet, key(3), key(1), 11, 10, 0), Err(CopilotPs2BetError::DeadlinePassed));
    assert_eq!(copilot_ps2_bet::timeout(&mut bet, key(1), key(2), 10, 10, 0, 0), Err(CopilotPs2BetError::DeadlineNotReached));
    assert_eq!(copilot_ps2_bet::timeout(&mut bet, key(2), key(1), 11, 10, 0, 0), Err(CopilotPs2BetError::ConstraintHasOne));
    assert_eq!(copilot_ps2_bet::win(&mut bet, key(3), key(1), 10, 10, 0), Ok(Payment { to: key(1), amount: 10 }));
    assert_eq!(copilot_ps2_bet::win(&mut bet, key(3), key(1), 10, 10, 0), Err(CopilotPs2BetError::AlreadyResolved));
}

#[test]
fn copilot_ps3_bet_round() {
    assert!(matches!(copilot_ps3_bet::join(key(1), key(1), key(3), 1, 5, 0, 0), Err(CopilotPs3BetError::SameParticipant)));
    let (mut bet, _) = copilot_ps3_bet::join(key(1), key(2), key(3), 10, 5, 0, 7).unwrap();
    assert_eq!(copilot_ps3_bet::timeout(&mut bet, 11, false, false), Err(CopilotPs3BetError::MissingSigner));
    assert_eq!(copilot_ps3_bet::timeout(&mut bet, 10, true, false), Err(CopilotPs3BetError::DeadlineNotReached));
    assert_eq!(copilot_ps3_bet::win(&mut bet, key(3), key(5), 10, 10, 0), Err(CopilotPs3BetError::InvalidWinner));
    assert_eq!(copilot_ps3_bet::timeout(&mut bet, 11, false, true), Ok(Refund { to_participant1: 5, to_participant2: 5 }));
    assert!(bet.resolved);
    assert_eq!(copilot_ps3_bet::win(&mut bet, key(3), key(1), 10, 10, 0), Err(CopilotPs3BetError::AlreadyResolved));
}

#[test]
fn deepseek_ps1_bet_round() {
    assert!(matches!(
        deepseek_ps1_bet::join(key(1), key(2), key(3), 10, 5, 0, 1, true, false),
        Err(DeepseekPs1BetError::MissingRequiredSignatures)
    ));
    assert!(matches!(deepseek_ps1_bet::join(key(1), key(2), key(3), 10, 0, 0, 1, true, true), Err(DeepseekPs1BetError::InvalidWager)));
    let (mut bet, _) = deepseek_ps1_bet::join(key(1), key(2), key(3), 10, 5, 0, 1, true, true).unwrap();
    assert_eq!(deepseek_ps1_bet::win(&mut bet, key(3), false, key(1), 3, 10, 0), Err(DeepseekPs1BetError::UnauthOracle));
    assert_eq!(deepseek_ps1_bet::win(&mut bet, key(4), true, key(1), 3, 10, 0), Err(DeepseekPs1BetError::InvalidOracle));
    assert_eq!(deepseek_ps1_bet::win(&mut bet, key(3), true, key(1), 3, 9, 0), Err(DeepseekPs1BetError::InsufficientFunds));
    assert_eq!(deepseek_ps1_bet::win(&mut bet, key(3), true, key(1), 3, 10, u64::MAX), Err(DeepseekPs1BetError::TransferFailed));
    assert_eq!(
        deepseek_ps1_bet::timeout(&mut bet, 11, false, false, 10, 0, 0),
        Err(DeepseekPs1BetError::MissingRequiredSignatures)
    );
    assert_eq!(deepseek_ps1_bet::timeout(&mut bet, 10, true, false, 10, 0, 0), Err(DeepseekPs1BetError::DeadlineNotReached));
    assert_eq!(
        deepseek_ps1_bet::win(&mut bet, key(3), true, key(2), 10, 10, 0),
        Ok(Payment { to: key(2), amount: 10 })
    );
    assert_eq!(deepseek_ps1_bet::timeout(&mut bet, 11, true, true, 10, 0, 0), Err(DeepseekPs1BetError::BetAlreadyResolved));
}

#[test]
fn claude_ps2_oracle_is_checked_first_and_winner_recorded() {
    let (mut bet, _) = claude_ps2::join(key(1), key(2), key(3), 10, 8, 0).unwrap();
    assert_eq!(bet.pot, 16);
    assert_eq!(claude_ps2::win(&mut bet, key(3), key(2), 10), Ok(Payment { to: key(2), amount: 16 }));
    assert_eq!(bet.winner, Some(key(2)));
    assert!(!bet.is_active);
    assert_eq!(claude_ps2::win(&mut bet, key(4), key(2), 10), Err(claude_ps2::BettingError::UnauthorizedOracle));
    assert_eq!(claude_ps2::win(&mut bet, key(3), key(2), 10), Err(claude_ps2::BettingError::BetNotActive));
    let (mut other, _) = claude_ps2::join(key(1), key(2), key(3), 10, 8, 0).unwrap();
    assert_eq!(claude_ps2::win(&mut other, key(3), key(2), 11), Err(claude_ps2::BettingError::BetExpired));
    assert_eq!(claude_ps2::timeout(&mut other, key(1), key(2), 10), Err(claude_ps2::BettingError::BetNotExpired));
    // The refund accounts must be the stored participants, each in its place.
    assert_eq!(claude_ps2::timeout(&mut other, key(2), key(1), 11), Err(claude_ps2::BettingError::InvalidParticipant));
    assert_eq!(claude_ps2::timeout(&mut other, key(1), key(1), 11), Err(claude_ps2::BettingError::InvalidParticipant));
    assert!(other.is_active);
    assert_eq!(claude_ps2::timeout(&mut other, key(1), key(2), 11), Ok(Refund { to_participant1: 8, to_participant2: 8 }));
}

#[test]
fn copilot_ps1_zero_wager_means_settled() {
    let (mut bet, _) = copilot_ps1::join(key(1), key(2), key(3), 10, 8, 0, 1);
    assert_eq!(copilot_ps1::win(&mut bet, key(4), key(1), 5), Err(copilot_ps1::ErrorCode::UnauthorizedOracle));
    assert_eq!(copilot_ps1::win(&mut bet, key(3), key(1), 11), Err(copilot_ps1::ErrorCode::TooLateForWin));
    assert_eq!(copilot_ps1::timeout(&mut bet, key(1), key(2), 10, true, true), Err(copilot_ps1::ErrorCode::TooEarlyForTimeout));
    assert_eq!(copilot_ps1::timeout(&mut bet, key(1), key(2), 11, false, false), Err(copilot_ps1::ErrorCode::Unauthorized));
    assert_eq!(copilot_ps1::timeout(&mut bet, key(1), key(9), 11, true, true), Err(copilot_ps1::ErrorCode::ConstraintHasOne));
    assert_eq!(copilot_ps1::win(&mut bet, key(3), key(1), 10), Ok(Payment { to: key(1), amount: 16 }));
    assert_eq!(bet.wager, 0);
    assert_eq!(copilot_ps1::timeout(&mut bet, key(1), key(2), 11, true, true), Err(copilot_ps1::ErrorCode::AlreadySettled));
}

#[test]
fn copilot_ps3_pays_at_derived_address_on_oracle_word() {
    let program_id = key(50);
    let (mut bet, _) = copilot_ps3::join(key(1), key(2), key(3), 10, 8, 0).unwrap();
    let id = anchor_lang::prelude::Pubkey::new_from_array(program_id.bytes);
    let (pda, _) = anchor_lang::prelude::Pubkey::find_program_address(&[&[1u8; 32], &[2u8; 32]], &id);
    let bet_key = Pubkey { bytes: pda.to_bytes() };
    let mut refunded = bet;
    assert_eq!(copilot_ps3::win(&mut bet, key(4), key(1), program_id, bet_key), Err(copilot_ps3::ErrorCode::UnauthorizedOracle));
    assert_eq!(copilot_ps3::win(&mut bet, key(3), key(1), program_id, key(9)), Err(copilot_ps3::ErrorCode::InvalidPda));
    assert!(!bet.settled);
    assert_eq!(copilot_ps3::win(&mut bet, key(3), key(1), program_id, bet_key), Ok(Payment { to: key(1), amount: 16 }));
    assert!(bet.settled);
    // The pot is paid once: no second payment and no refund after it.
    assert_eq!(copilot_ps3::win(&mut bet, key(3), key(1), program_id, bet_key), Err(copilot_ps3::ErrorCode::AlreadySettled));
    assert_eq!(
        copilot_ps3::timeout(&mut bet, 11, true, false, program_id, bet_key),
        Err(copilot_ps3::ErrorCode::AlreadySettled)
    );
    assert_eq!(
        copilot_ps3::timeout(&mut refunded, 11, false, false, program_id, bet_key),
        Err(copilot_ps3::ErrorCode::UnauthorizedParticipant)
    );
    assert_eq!(
        copilot_ps3::timeout(&mut refunded, 11, true, false, program_id, bet_key),
        Ok(Refund { to_participant1: 8, to_participant2: 8 })
    );
    assert_eq!(
        copilot_ps3::timeout(&mut refunded, 12, true, false, program_id, bet_key),
        Err(copilot_ps3::ErrorCode::AlreadySettled)
    );
    assert!(matches!(copilot_ps3::join(key(1), key(2), key(3), 10, 0, 0), Err(copilot_ps3::ErrorCode::InvalidWager)));
}

#[test]
fn copilot_ps7_balances_and_oracle() {
    assert!(matches!(copilot_ps7::join(key(1), key(1), key(3), 10, 8, 0, 1), Err(E7::SameParticipant)));
    assert!(matches!(copilot_ps7::join(key(1), key(2), key(2), 10, 8, 0, 1), Err(E7::NotAuthorized)));
    let (mut bet, _) = copilot_ps7::join(key(1), key(2), key(3), 10, 8, 0, 1).unwrap();
    assert_eq!(copilot_ps7::win(&mut bet, key(4), true, key(1), 5, 100, 0), Err(E7::ConstraintHasOne));
    assert_eq!(copilot_ps7::win(&mut bet, key(3), false, key(1), 5, 100, 0), Err(E7::NotAuthorized));
    assert_eq!(copilot_ps7::win(&mut bet, key(3), true, key(1), 5, 15, 0), Err(E7::Underflow));
    assert_eq!(copilot_ps7::win(&mut bet, key(3), true, key(1), 5, 16, u64::MAX), Err(E7::LamportOverflow));
    assert_eq!(copilot_ps7::timeout(&mut bet, key(1), key(2), 10, true, false, 16, 0, 0), Err(E7::DeadlineNotReached));
    // Only the bet's own participants, each in its place, get the refunds.
    assert_eq!(copilot_ps7::timeout(&mut bet, key(1), key(1), 11, true, false, 16, 0, 0), Err(E7::InvalidParticipant));
    assert_eq!(copilot_ps7::timeout(&mut bet, key(2), key(1), 11, true, false, 16, 0, 0), Err(E7::InvalidParticipant));
    assert_eq!(copilot_ps7::timeout(&mut bet, key(4), key(2), 11, true, false, 16, 0, 0), Err(E7::InvalidParticipant));
    assert!(!bet.settled);
    assert_eq!(
        copilot_ps7::timeout(&mut bet, key(1), key(2), 11, true, false, 16, 0, 0),
        Ok(Refund { to_participant1: 8, to_participant2: 8 })
    );
    assert!(bet.settled);
    assert_eq!(copilot_ps7::timeout(&mut bet, key(1), key(2), 12, true, false, 16, 0, 0), Err(E7::AlreadySettled));
}

#[test]
fn deepseek_ps2_bet_round() {
    let (mut bet, w) = deepseek_ps2_bet::join(key(1), key(2), key(3), 10, 8, 0, 1);
    assert_eq!(w, Wagers { from_participant1: 8, from_participant2: 8 });
    assert_eq!(deepseek_ps2_bet::win(&mut bet, key(3), key(1), key(2), key(1), 9, 16, 0), Err(D2::InvalidParticipants));
    assert_eq!(deepseek_ps2_bet::win(&mut bet, key(3), key(1), key(1), key(2), 10, 16, 0), Err(D2::DeadlinePassed));
    assert_eq!(deepseek_ps2_bet::win(&mut bet, key(3), key(1), key(1), key(2), 9, 15, 0), Err(D2::InsufficientFunds));
    assert_eq!(deepseek_ps2_bet::timeout(&mut bet, 9, 16, 0, 0), Err(D2::DeadlineNotReached));
    assert_eq!(deepseek_ps2_bet::timeout(&mut bet, 10, 15, 0, 0), Err(D2::InsufficientFunds));
    assert_eq!(
        deepseek_ps2_bet::win(&mut bet, key(3), key(1), key(1), key(2), 9, 16, 0),
        Ok(Payment { to: key(1), amount: 16 })
    );
    assert_eq!(deepseek_ps2_bet::timeout(&mut bet, 10, 16, 0, 0), Err(D2::AlreadyResolved));
}

#[test]
fn deepseek_ps2_refund_halves_balance() {
    let (bet, _) = deepseek_ps2::join(key(1), key(2), key(3), 10, 8, 0);
    assert_eq!(deepseek_ps2::timeout(&bet, 10, 17), Err(deepseek_ps2::ErrorCode::DeadlineNotReached));
    assert_eq!(deepseek_ps2::timeout(&bet, 11, 17), Err(deepseek_ps2::ErrorCode::UnbalancedInstruction));
    assert_eq!(deepseek_ps2::timeout(&bet, 11, 16), Ok(Refund { to_participant1: 8, to_participant2: 8 }));
    assert_eq!(deepseek_ps2::win(&bet, key(3), key(2), 17), Ok(Payment { to: key(2), amount: 17 }));
    assert_eq!(deepseek_ps2::win(&bet, key(2), key(2), 17), Err(deepseek_ps2::ErrorCode::InvalidOracle));
}

#[test]
fn deepseek_ps3_deadline_splits_outcomes() {
    let (bet, _) = deepseek_ps3::join(key(1), key(2), key(3), 10, 8, 0, 1);
    assert_eq!(deepseek_ps3::win(&bet, key(3), key(1), 9), Ok(Payment { to: key(1), amount: 16 }));
    assert_eq!(deepseek_ps3::win(&bet, key(3), key(1), 10), Err(deepseek_ps3::BetError::DeadlinePassed));
    assert_eq!(deepseek_ps3::win(&bet, key(8), key(1), 9), Err(deepseek_ps3::BetError::ConstraintHasOne));
    assert_eq!(deepseek_ps3::timeout(&bet, 9), Err(deepseek_ps3::BetError::DeadlineNotReached));
    assert_eq!(deepseek_ps3::timeout(&bet, 10), Ok(Refund { to_participant1: 8, to_participant2: 8 }));
}

#[test]
fn deepseek_ps3_bet_round() {
    assert!(matches!(
        deepseek_ps3_bet::join(key(1), key(2), key(3), 10, 8, 0, true, false),
        Err(D3::MissingRequiredSignatures)
    ));
    let (mut bet, _) = deepseek_ps3_bet::join(key(1), key(2), key(3), 10, 8, 0, true, true).unwrap();
    assert_eq!(deepseek_ps3_bet::check_participants(&bet, &key(1), &key(2)), Ok(()));
    assert_eq!(deepseek_ps3_bet::check_participants(&bet, &key(2), &key(1)), Err(D3::ConstraintHasOne));
    assert_eq!(deepseek_ps3_bet::win(&mut bet, key(3), key(5), 10), Err(D3::InvalidWinner));
    assert_eq!(deepseek_ps3_bet::timeout(&mut bet, 11), Ok(Refund { to_participant1: 8, to_participant2: 8 }));
    assert_eq!(deepseek_ps3_bet::win(&mut bet, key(3), key(1), 10), Err(D3::AlreadyResolved));
}

#[test]
fn deepseek_ps7_round() {
    let (bet, _) = deepseek_ps7::join(key(1), key(2), key(3), 10, 8, 0, 1);
    assert_eq!(deepseek_ps7::win(&bet, key(3), key(4), 30), Err(deepseek_ps7::BetError::WinnerNotParticipant));
    assert_eq!(deepseek_ps7::win(&bet, key(3), key(2), 30), Ok(Payment { to: key(2), amount: 30 }));
    assert_eq!(deepseek_ps7::timeout(&bet, 11, false, false), Err(deepseek_ps7::BetError::Unauthorized));
    assert_eq!(deepseek_ps7::timeout(&bet, 11, true, false), Ok(Refund { to_participant1: 8, to_participant2: 8 }));
}
