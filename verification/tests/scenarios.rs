use lottery::address::{lottery_address, Address};
use lottery::error::{ErrorCategory, ErrorCode};
use lottery::ledger::Ledger;
use lottery::lottery::{claim, draw, initialize, purchase};
use lottery::sysvar::Clock;

const PRICE: u64 = 1_000_000;
const RESERVE: u64 = 23_678_880;

fn key(tag: u8) -> Address {
    Address::new([tag; 32])
}

fn round_with_one_ticket() -> (Ledger, Address) {
    let program = key(7);
    let mut ledger = Ledger::new(program, RESERVE);
    ledger.airdrop(&key(1), 100 * PRICE).unwrap();
    ledger.airdrop(&key(2), 3 * PRICE).unwrap();
    assert_eq!(initialize(&mut ledger, &key(1), 1), Ok(()));
    assert_eq!(purchase(&mut ledger, &key(2), 1, [1, 2, 3, 4, 5, 6]), Ok(()));
    assert_eq!(ledger.balance(&key(2)), 2 * PRICE);
    let address = lottery_address(&program, 1).unwrap().0;
    (ledger, address)
}

#[test]
fn end_to_end_the_matching_ticket_collects_the_escrow() {
    let (mut ledger, address) = round_with_one_ticket();
    ledger.set_clock(Clock { slot: 2_319_880, unix_timestamp: 1 });
    assert_eq!(draw(&mut ledger, &key(1), 1), Ok(()));
    let drawn = ledger.lottery(&address).unwrap();
    assert_eq!(drawn.data.numbers, Some([1, 2, 3, 4, 5, 6]));
    assert!(!drawn.data.is_active);
    assert_eq!(drawn.lamports, RESERVE + PRICE);
    assert_eq!(claim(&mut ledger, &key(2), 1), Ok(()));
    let paid = ledger.lottery(&address).unwrap();
    assert!(paid.data.is_claimed);
    assert!(!paid.data.is_active);
    assert_eq!(paid.data.numbers, Some([1, 2, 3, 4, 5, 6]));
    assert_eq!(paid.lamports, RESERVE);
    assert_eq!(ledger.balance(&key(2)), 3 * PRICE);
    assert_eq!(ledger.balance(&key(1)), 100 * PRICE - RESERVE);
    let again = claim(&mut ledger, &key(2), 1);
    assert_eq!(again, Err(ErrorCode::LotteryAlreadyClaimed));
    assert_eq!(again.unwrap_err().category(), ErrorCategory::PreconditionFailed);
    assert_eq!(ledger.balance(&key(2)), 3 * PRICE);
}

#[test]
fn end_to_end_a_ticket_in_another_order_collects_nothing() {
    let (mut ledger, address) = round_with_one_ticket();
    ledger.set_clock(Clock { slot: 2_567, unix_timestamp: 3 });
    assert_eq!(draw(&mut ledger, &key(1), 1), Ok(()));
    assert_eq!(ledger.lottery(&address).unwrap().data.numbers, Some([2, 1, 3, 4, 5, 6]));
    let refused = claim(&mut ledger, &key(2), 1);
    assert_eq!(refused, Err(ErrorCode::LotteryNumbersDoNotMatch));
    assert_eq!(refused.unwrap_err().category(), ErrorCategory::Mismatch);
    let kept = ledger.lottery(&address).unwrap();
    assert!(!kept.data.is_claimed);
    assert_eq!(kept.lamports, RESERVE + PRICE);
    assert_eq!(ledger.balance(&key(2)), 2 * PRICE);
}

#[test]
fn failures_fall_into_the_classes_that_callers_tell_apart() {
    let (mut ledger, _) = round_with_one_ticket();
    let invalid = purchase(&mut ledger, &key(3), 1, [1, 2, 3, 4, 5, 5]).unwrap_err();
    assert_eq!(invalid.category(), ErrorCategory::InvalidInput);
    let twice = purchase(&mut ledger, &key(2), 1, [1, 2, 3, 4, 5, 6]).unwrap_err();
    assert_eq!(twice.category(), ErrorCategory::AlreadyExists);
    let stranger = draw(&mut ledger, &key(2), 1).unwrap_err();
    assert_eq!(stranger.category(), ErrorCategory::AuthorizationFailed);
    let early = claim(&mut ledger, &key(2), 1).unwrap_err();
    assert_eq!(early.category(), ErrorCategory::PreconditionFailed);
    assert_eq!(initialize(&mut ledger, &key(1), 2), Ok(()));
    let idle = draw(&mut ledger, &key(1), 2).unwrap_err();
    assert_eq!(idle, ErrorCode::LotteryNoTicketsSold);
    assert_eq!(idle.category(), ErrorCategory::NoDemand);
    assert_eq!(draw(&mut ledger, &key(1), 1), Ok(()));
    let late = draw(&mut ledger, &key(1), 1).unwrap_err();
    assert_eq!(late.category(), ErrorCategory::PreconditionFailed);
}
