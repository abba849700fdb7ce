use lottery::address::{lottery_address, ticket_address, Address};
use lottery::error::ErrorCode;
use lottery::ledger::Ledger;
use lottery::lottery::{
    claim, claim_at, draw, draw_at, initialize, initialize_at, purchase, purchase_at,
};
use lottery::state::lottery::Lottery;
use lottery::state::ticket::Ticket;
use lottery::sysvar::Clock;
use lottery::table::Table;

const PRICE: u64 = 1_000_000;
const RESERVE: u64 = 890_880;

fn key(tag: u8) -> Address {
    Address::new([tag; 32])
}

fn participant(index: u8) -> Address {
    let mut bytes = [0u8; 32];
    bytes[0] = index;
    bytes[1] = 200;
    Address::new(bytes)
}

fn program() -> Address {
    key(7)
}

fn funded_ledger() -> Ledger {
    let mut ledger = Ledger::new(program(), RESERVE);
    ledger.airdrop(&key(1), 10 * PRICE).unwrap();
    ledger.airdrop(&key(2), 5 * PRICE).unwrap();
    ledger.airdrop(&key(3), 5 * PRICE).unwrap();
    ledger
}

fn round_key(id: u64) -> Address {
    lottery_address(&program(), id).unwrap().0
}

fn round(ledger: &Ledger, id: u64) -> Lottery {
    ledger.lottery(&round_key(id)).unwrap().data
}

fn escrow(ledger: &Ledger, id: u64) -> u64 {
    ledger.lottery(&round_key(id)).unwrap().lamports
}

#[test]
fn table_keeps_one_value_under_each_address() {
    let mut table: Table<u32> = Table::new();
    assert!(!table.contains(&key(1)));
    assert_eq!(table.get(&key(1)), None);
    table.put(key(1), 10);
    table.put(key(2), 20);
    assert!(table.contains(&key(1)));
    assert_eq!(table.get(&key(1)), Some(&10));
    assert_eq!(table.get(&key(2)), Some(&20));
    assert_eq!(table.get(&key(3)), None);
    table.put(key(1), 11);
    assert_eq!(table.get(&key(1)), Some(&11));
    assert_eq!(table.get(&key(2)), Some(&20));
}

#[test]
fn new_ledger_is_empty() {
    let ledger = Ledger::new(program(), RESERVE);
    assert_eq!(ledger.program_id(), program());
    assert_eq!(ledger.rent_minimum(), RESERVE);
    assert_eq!(ledger.clock(), Clock { slot: 0, unix_timestamp: 0 });
    assert_eq!(ledger.balance(&key(1)), 0);
    assert!(!ledger.has_lottery(&round_key(1)));
    assert!(ledger.lottery(&round_key(1)).is_none());
    assert!(!ledger.has_ticket(&key(1)));
    assert_eq!(ledger.ticket(&key(1)), None);
}

#[test]
fn set_clock_changes_the_clock_alone() {
    let mut ledger = funded_ledger();
    ledger.set_clock(Clock { slot: 12, unix_timestamp: -5 });
    assert_eq!(ledger.clock(), Clock { slot: 12, unix_timestamp: -5 });
    assert_eq!(ledger.balance(&key(1)), 10 * PRICE);
    assert_eq!(ledger.rent_minimum(), RESERVE);
}

#[test]
fn airdrop_adds_to_the_balance() {
    let mut ledger = Ledger::new(program(), 0);
    assert_eq!(ledger.airdrop(&key(1), 5), Ok(()));
    assert_eq!(ledger.airdrop(&key(1), 7), Ok(()));
    assert_eq!(ledger.balance(&key(1)), 12);
    assert_eq!(ledger.balance(&key(2)), 0);
    assert_eq!(ledger.airdrop(&key(1), u64::MAX - 11), Err(ErrorCode::BalanceOverflow));
    assert_eq!(ledger.balance(&key(1)), 12);
    assert_eq!(ledger.airdrop(&key(1), u64::MAX - 12), Ok(()));
    assert_eq!(ledger.balance(&key(1)), u64::MAX);
}

#[test]
fn initialize_creates_the_round_at_its_derived_address() {
    let mut ledger = funded_ledger();
    assert_eq!(initialize(&mut ledger, &key(1), 1), Ok(()));
    let (address, bump) = lottery_address(&program(), 1).unwrap();
    let account = ledger.lottery(&address).unwrap();
    assert_eq!(account.key, address);
    assert_eq!(account.lamports, RESERVE);
    assert_eq!(
        account.data,
        Lottery {
            authority: key(1),
            id: 1,
            holders: vec![],
            sold: 0,
            price: PRICE,
            is_active: true,
            is_claimed: false,
            numbers: None,
            bump,
        }
    );
    assert_eq!(ledger.balance(&key(1)), 10 * PRICE - RESERVE);
    assert!(!ledger.has_lottery(&round_key(2)));
}

#[test]
fn initialize_refuses_an_identifier_in_use() {
    let mut ledger = funded_ledger();
    assert_eq!(initialize(&mut ledger, &key(1), 1), Ok(()));
    assert_eq!(purchase(&mut ledger, &key(2), 1, [1, 2, 3, 4, 5, 6]), Ok(()));
    let before = round(&ledger, 1);
    assert_eq!(initialize(&mut ledger, &key(1), 1), Err(ErrorCode::AlreadyExists));
    assert_eq!(initialize(&mut ledger, &key(3), 1), Err(ErrorCode::AlreadyExists));
    assert_eq!(round(&ledger, 1), before);
    assert_eq!(ledger.balance(&key(1)), 10 * PRICE - RESERVE);
    assert_eq!(ledger.balance(&key(3)), 5 * PRICE);
    assert_eq!(initialize(&mut ledger, &key(3), 2), Ok(()));
    assert_eq!(round(&ledger, 2).authority, key(3));
}

#[test]
fn initialize_needs_the_reserve_funded() {
    let mut ledger = Ledger::new(program(), RESERVE);
    ledger.airdrop(&key(1), RESERVE - 1).unwrap();
    assert_eq!(initialize(&mut ledger, &key(1), 1), Err(ErrorCode::InsufficientFunds));
    assert!(!ledger.has_lottery(&round_key(1)));
    assert_eq!(ledger.balance(&key(1)), RESERVE - 1);
    ledger.airdrop(&key(1), 1).unwrap();
    assert_eq!(initialize(&mut ledger, &key(1), 1), Ok(()));
    assert_eq!(ledger.balance(&key(1)), 0);
    assert_eq!(escrow(&ledger, 1), RESERVE);
}

#[test]
fn purchase_creates_the_ticket_at_its_derived_address() {
    let mut ledger = funded_ledger();
    initialize(&mut ledger, &key(1), 1).unwrap();
    assert_eq!(purchase(&mut ledger, &key(2), 1, [3, 1, 4, 5, 9, 2]), Ok(()));
    let (ticket_key, bump) = ticket_address(&program(), &round_key(1), &key(2)).unwrap();
    assert_eq!(ledger.ticket(&ticket_key), Some(Ticket { numbers: [3, 1, 4, 5, 9, 2], bump }));
    let sold = round(&ledger, 1);
    assert_eq!(sold.holders, vec![ticket_key]);
    assert_eq!(sold.sold, 1);
    assert_eq!(ledger.balance(&key(2)), 4 * PRICE);
    assert_eq!(escrow(&ledger, 1), RESERVE + PRICE);
}

#[test]
fn purchase_needs_the_round() {
    let mut ledger = funded_ledger();
    assert_eq!(
        purchase(&mut ledger, &key(2), 1, [1, 2, 3, 4, 5, 6]),
        Err(ErrorCode::AccountNotInitialized)
    );
    assert_eq!(ledger.balance(&key(2)), 5 * PRICE);
}

#[test]
fn second_purchase_by_the_same_participant_is_refused() {
    let mut ledger = funded_ledger();
    initialize(&mut ledger, &key(1), 1).unwrap();
    assert_eq!(purchase(&mut ledger, &key(2), 1, [1, 2, 3, 4, 5, 6]), Ok(()));
    let before = round(&ledger, 1);
    assert_eq!(
        purchase(&mut ledger, &key(2), 1, [1, 2, 3, 4, 5, 6]),
        Err(ErrorCode::AlreadyExists)
    );
    assert_eq!(
        purchase(&mut ledger, &key(2), 1, [6, 5, 4, 3, 2, 1]),
        Err(ErrorCode::AlreadyExists)
    );
    assert_eq!(
        purchase(&mut ledger, &key(2), 1, [0, 0, 0, 0, 0, 0]),
        Err(ErrorCode::AlreadyExists)
    );
    assert_eq!(round(&ledger, 1), before);
    assert_eq!(before.sold, 1);
    assert_eq!(ledger.balance(&key(2)), 4 * PRICE);
    assert_eq!(escrow(&ledger, 1), RESERVE + PRICE);
    assert_eq!(purchase(&mut ledger, &key(3), 1, [1, 2, 3, 4, 5, 6]), Ok(()));
    assert_eq!(round(&ledger, 1).sold, 2);
}

#[test]
fn one_participant_may_hold_tickets_of_two_rounds() {
    let mut ledger = funded_ledger();
    initialize(&mut ledger, &key(1), 1).unwrap();
    initialize(&mut ledger, &key(1), 2).unwrap();
    assert_eq!(purchase(&mut ledger, &key(2), 1, [1, 2, 3, 4, 5, 6]), Ok(()));
    assert_eq!(purchase(&mut ledger, &key(2), 2, [1, 2, 3, 4, 5, 6]), Ok(()));
    assert_eq!(round(&ledger, 1).sold, 1);
    assert_eq!(round(&ledger, 2).sold, 1);
    assert_eq!(ledger.balance(&key(2)), 3 * PRICE);
}

#[test]
fn invalid_numbers_leave_round_and_ticket_untouched() {
    let mut ledger = funded_ledger();
    initialize(&mut ledger, &key(1), 1).unwrap();
    let before = round(&ledger, 1);
    let ticket_key = ticket_address(&program(), &round_key(1), &key(2)).unwrap().0;
    for numbers in [[0, 2, 3, 4, 5, 6], [1, 2, 3, 4, 5, 11], [1, 2, 3, 3, 5, 6]] {
        assert_eq!(
            purchase(&mut ledger, &key(2), 1, numbers),
            Err(ErrorCode::LotteryInvalidNumbers)
        );
        assert_eq!(round(&ledger, 1), before);
        assert!(!ledger.has_ticket(&ticket_key));
        assert_eq!(ledger.balance(&key(2)), 5 * PRICE);
        assert_eq!(escrow(&ledger, 1), RESERVE);
    }
}

#[test]
fn purchase_without_funds_changes_nothing() {
    let mut ledger = funded_ledger();
    initialize(&mut ledger, &key(1), 1).unwrap();
    ledger.airdrop(&key(4), PRICE - 1).unwrap();
    assert_eq!(
        purchase(&mut ledger, &key(4), 1, [1, 2, 3, 4, 5, 6]),
        Err(ErrorCode::InsufficientFunds)
    );
    assert_eq!(
        purchase(&mut ledger, &key(5), 1, [1, 2, 3, 4, 5, 6]),
        Err(ErrorCode::InsufficientFunds)
    );
    assert_eq!(round(&ledger, 1).sold, 0);
    assert_eq!(ledger.balance(&key(4)), PRICE - 1);
    assert_eq!(escrow(&ledger, 1), RESERVE);
}

#[test]
fn a_round_sells_a_hundred_tickets_and_no_more() {
    let mut ledger = funded_ledger();
    initialize(&mut ledger, &key(1), 1).unwrap();
    for index in 0..100u8 {
        let buyer = participant(index);
        ledger.airdrop(&buyer, PRICE).unwrap();
        assert_eq!(purchase(&mut ledger, &buyer, 1, [1, 2, 3, 4, 5, 6]), Ok(()));
        let now = round(&ledger, 1);
        assert_eq!(now.sold, index as u32 + 1);
        assert_eq!(now.holders.len(), index as usize + 1);
    }
    let late = participant(100);
    ledger.airdrop(&late, PRICE).unwrap();
    assert_eq!(purchase(&mut ledger, &late, 1, [1, 2, 3, 4, 5, 6]), Err(ErrorCode::LotterySoldOut));
    let full = round(&ledger, 1);
    assert_eq!(full.sold, 100);
    assert_eq!(full.holders.len(), 100);
    assert_eq!(ledger.balance(&late), PRICE);
    assert_eq!(escrow(&ledger, 1), RESERVE + 100 * PRICE);
}

#[test]
fn escrow_holds_the_price_of_every_ticket_sold() {
    let mut ledger = Ledger::new(program(), 0);
    ledger.airdrop(&key(1), PRICE).unwrap();
    initialize(&mut ledger, &key(1), 9).unwrap();
    assert_eq!(escrow(&ledger, 9), 0);
    for index in 0..7u8 {
        let buyer = participant(index);
        ledger.airdrop(&buyer, 2 * PRICE).unwrap();
        assert_eq!(purchase(&mut ledger, &buyer, 9, [2, 4, 6, 8, 10, 1]), Ok(()));
        assert_eq!(escrow(&ledger, 9), (index as u64 + 1) * PRICE);
        assert_eq!(ledger.balance(&buyer), PRICE);
    }
    assert_eq!(escrow(&ledger, 9), 7_000_000);
    assert_eq!(round(&ledger, 9).sold, 7);
}

#[test]
fn draw_uses_the_clock_of_the_ledger() {
    let mut ledger = funded_ledger();
    initialize(&mut ledger, &key(1), 1).unwrap();
    purchase(&mut ledger, &key(2), 1, [1, 2, 3, 4, 5, 6]).unwrap();
    ledger.set_clock(Clock { slot: 3, unix_timestamp: 5 });
    assert_eq!(draw(&mut ledger, &key(1), 1), Ok(()));
    let sealed = round(&ledger, 1);
    assert_eq!(sealed.numbers, Some([6, 3, 2, 1, 1, 1]));
    assert!(!sealed.is_active);
    assert!(!sealed.is_claimed);
    assert_eq!(sealed.sold, 1);
    assert_eq!(escrow(&ledger, 1), RESERVE + PRICE);
}

#[test]
fn draw_happens_once() {
    let mut ledger = funded_ledger();
    initialize(&mut ledger, &key(1), 1).unwrap();
    purchase(&mut ledger, &key(2), 1, [1, 2, 3, 4, 5, 6]).unwrap();
    ledger.set_clock(Clock { slot: 3, unix_timestamp: 5 });
    assert_eq!(draw(&mut ledger, &key(1), 1), Ok(()));
    ledger.set_clock(Clock { slot: 2_567, unix_timestamp: 3 });
    assert_eq!(draw(&mut ledger, &key(1), 1), Err(ErrorCode::LotteryNotActive));
    assert_eq!(round(&ledger, 1).numbers, Some([6, 3, 2, 1, 1, 1]));
    assert_eq!(
        purchase(&mut ledger, &key(3), 1, [1, 2, 3, 4, 5, 6]),
        Err(ErrorCode::LotteryNotActive)
    );
    assert_eq!(round(&ledger, 1).sold, 1);
}

#[test]
fn draw_refusals_on_the_ledger() {
    let mut ledger = funded_ledger();
    assert_eq!(draw(&mut ledger, &key(1), 1), Err(ErrorCode::AccountNotInitialized));
    initialize(&mut ledger, &key(1), 1).unwrap();
    assert_eq!(draw(&mut ledger, &key(1), 1), Err(ErrorCode::LotteryNoTicketsSold));
    assert_eq!(draw(&mut ledger, &key(2), 1), Err(ErrorCode::Unauthorized));
    purchase(&mut ledger, &key(2), 1, [1, 2, 3, 4, 5, 6]).unwrap();
    assert_eq!(draw(&mut ledger, &key(2), 1), Err(ErrorCode::Unauthorized));
    let open = round(&ledger, 1);
    assert!(open.is_active);
    assert_eq!(open.numbers, None);
}

#[test]
fn claim_refusals_on_the_ledger() {
    let mut ledger = funded_ledger();
    assert_eq!(claim(&mut ledger, &key(2), 1), Err(ErrorCode::AccountNotInitialized));
    initialize(&mut ledger, &key(1), 1).unwrap();
    assert_eq!(claim(&mut ledger, &key(2), 1), Err(ErrorCode::AccountNotInitialized));
    purchase(&mut ledger, &key(2), 1, [1, 2, 3, 4, 5, 6]).unwrap();
    assert_eq!(claim(&mut ledger, &key(2), 1), Err(ErrorCode::LotteryIsActive));
    assert_eq!(claim(&mut ledger, &key(3), 1), Err(ErrorCode::AccountNotInitialized));
    assert_eq!(ledger.balance(&key(2)), 4 * PRICE);
    assert_eq!(escrow(&ledger, 1), RESERVE + PRICE);
}

#[test]
fn only_the_matching_ticket_collects() {
    let mut ledger = funded_ledger();
    initialize(&mut ledger, &key(1), 1).unwrap();
    purchase(&mut ledger, &key(2), 1, [6, 5, 4, 3, 2, 1]).unwrap();
    purchase(&mut ledger, &key(3), 1, [1, 2, 3, 4, 5, 6]).unwrap();
    ledger.set_clock(Clock { slot: 1_159_940, unix_timestamp: 2 });
    draw(&mut ledger, &key(1), 1).unwrap();
    assert_eq!(claim(&mut ledger, &key(2), 1), Err(ErrorCode::LotteryNumbersDoNotMatch));
    assert_eq!(claim(&mut ledger, &key(1), 1), Err(ErrorCode::AccountNotInitialized));
    assert_eq!(escrow(&ledger, 1), RESERVE + 2 * PRICE);
    assert_eq!(claim(&mut ledger, &key(3), 1), Ok(()));
    assert_eq!(ledger.balance(&key(3)), 6 * PRICE);
    assert_eq!(ledger.balance(&key(2)), 4 * PRICE);
    assert_eq!(escrow(&ledger, 1), RESERVE);
    assert!(round(&ledger, 1).is_claimed);
    assert_eq!(claim(&mut ledger, &key(3), 1), Err(ErrorCode::LotteryAlreadyClaimed));
    assert_eq!(claim(&mut ledger, &key(2), 1), Err(ErrorCode::LotteryAlreadyClaimed));
    assert_eq!(ledger.balance(&key(3)), 6 * PRICE);
    assert_eq!(escrow(&ledger, 1), RESERVE);
}

#[test]
fn operations_at_given_addresses() {
    let mut ledger = funded_ledger();
    let (lottery, ticket) = (key(50), key(60));
    assert_eq!(initialize_at(&mut ledger, &key(1), 5, &lottery, 250), Ok(()));
    assert_eq!(
        initialize_at(&mut ledger, &key(1), 6, &lottery, 250),
        Err(ErrorCode::AlreadyExists)
    );
    let account = ledger.lottery(&lottery).unwrap();
    assert_eq!((account.data.id, account.data.bump, account.lamports), (5, 250, RESERVE));
    assert_eq!(
        purchase_at(&mut ledger, &key(2), [1, 2, 3, 4, 5, 6], &key(51), &ticket, 249),
        Err(ErrorCode::AccountNotInitialized)
    );
    assert_eq!(
        purchase_at(&mut ledger, &key(2), [1, 2, 3, 4, 5, 6], &lottery, &ticket, 249),
        Ok(())
    );
    assert_eq!(
        purchase_at(&mut ledger, &key(3), [1, 2, 3, 4, 5, 6], &lottery, &ticket, 249),
        Err(ErrorCode::AlreadyExists)
    );
    assert_eq!(ledger.ticket(&ticket), Some(Ticket { numbers: [1, 2, 3, 4, 5, 6], bump: 249 }));
    assert_eq!(ledger.lottery(&lottery).unwrap().data.holders, vec![ticket]);
    assert_eq!(draw_at(&mut ledger, &key(1), &key(51)), Err(ErrorCode::AccountNotInitialized));
    ledger.set_clock(Clock { slot: 2_319_880, unix_timestamp: 1 });
    assert_eq!(draw_at(&mut ledger, &key(1), &lottery), Ok(()));
    assert_eq!(
        claim_at(&mut ledger, &key(2), &lottery, &key(61)),
        Err(ErrorCode::AccountNotInitialized)
    );
    assert_eq!(claim_at(&mut ledger, &key(2), &lottery, &ticket), Ok(()));
    assert_eq!(ledger.balance(&key(2)), 5 * PRICE);
    assert_eq!(ledger.lottery(&lottery).unwrap().lamports, RESERVE);
}
