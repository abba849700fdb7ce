use anchor_lang::prelude::Pubkey;
use lottery::address::{bytes_of, lottery_address, ticket_address, Address};
use lottery::constants::{LOTTERY_SEED, TICKET_SEED};

fn address(tag: u8) -> Address {
    Address::new([tag; 32])
}

#[test]
fn namespaces_spell_their_names() {
    assert_eq!(&LOTTERY_SEED[..], b"lottery");
    assert_eq!(&TICKET_SEED[..], b"ticket");
}

#[test]
fn address_keeps_its_bytes() {
    let mut bytes = [0u8; 32];
    for (i, byte) in bytes.iter_mut().enumerate() {
        *byte = i as u8;
    }
    let address = Address::new(bytes);
    assert_eq!(address.to_bytes(), bytes);
    assert_eq!(address.bytes, bytes);
}

#[test]
fn addresses_compare_byte_by_byte() {
    let mut other = [9u8; 32];
    assert!(address(9) == Address::new(other));
    other[31] = 8;
    assert!(address(9) != Address::new(other));
    other[31] = 9;
    other[0] = 0;
    assert!(address(9) != Address::new(other));
}

#[test]
fn bytes_of_copies_an_array() {
    assert_eq!(bytes_of(&[1u8, 2, 3]), vec![1u8, 2, 3]);
    assert_eq!(bytes_of(&[0u8; 0]), Vec::<u8>::new());
    assert_eq!(bytes_of(&LOTTERY_SEED), b"lottery".to_vec());
}

#[test]
fn lottery_address_is_the_program_address_of_namespace_and_id() {
    let program = address(7);
    let id: u64 = 0x0102_0304_0506_0708;
    let (expected, expected_bump) = Pubkey::find_program_address(
        &[b"lottery", &id.to_le_bytes()],
        &Pubkey::new_from_array([7; 32]),
    );
    let (found, bump) = lottery_address(&program, id).unwrap();
    assert_eq!(found.to_bytes(), expected.to_bytes());
    assert_eq!(bump, expected_bump);
    assert!(found != program);
}

#[test]
fn ticket_address_is_the_program_address_of_namespace_round_and_participant() {
    let program = address(7);
    let round = address(3);
    let participant = address(4);
    let (expected, expected_bump) = Pubkey::find_program_address(
        &[b"ticket", &[3u8; 32], &[4u8; 32]],
        &Pubkey::new_from_array([7; 32]),
    );
    let (found, bump) = ticket_address(&program, &round, &participant).unwrap();
    assert_eq!(found.to_bytes(), expected.to_bytes());
    assert_eq!(bump, expected_bump);
}

#[test]
fn derivation_is_repeatable() {
    let program = address(7);
    assert_eq!(lottery_address(&program, 1), lottery_address(&program, 1));
    assert_eq!(
        ticket_address(&program, &address(3), &address(4)),
        ticket_address(&program, &address(3), &address(4))
    );
}

#[test]
fn different_keys_give_different_addresses() {
    let program = address(7);
    let one = lottery_address(&program, 1).unwrap().0;
    let two = lottery_address(&program, 2).unwrap().0;
    assert!(one != two);
    let other_program = lottery_address(&address(8), 1).unwrap().0;
    assert!(one != other_program);
    let ticket_a = ticket_address(&program, &one, &address(4)).unwrap().0;
    let ticket_b = ticket_address(&program, &one, &address(5)).unwrap().0;
    let ticket_c = ticket_address(&program, &two, &address(4)).unwrap().0;
    assert!(ticket_a != ticket_b);
    assert!(ticket_a != ticket_c);
    let swapped = ticket_address(&program, &address(4), &one).unwrap().0;
    assert!(ticket_a != swapped);
}
