//! Addresses, and how the address of a record follows from its keys.
//!
//! A record is not looked up in an index: its address is computed from a
//! namespace and the keys that identify it. A round is found from its
//! identifier, a ticket from the round and the participant who bought it, so
//! that one participant can hold at most one ticket of a round.

use crate::constants::{LOTTERY_SEED, TICKET_SEED};
use anchor_lang::prelude::Pubkey;
use vstd::bytes::{spec_u64_to_le_bytes, u64_to_le_bytes};
use vstd::prelude::*;
use vstd::std_specs::cmp::PartialEqSpecImpl;

verus! {

/// The address of a balance holder or of a record: 32 bytes.
#[derive(Clone, Copy, Debug)]
pub struct Address {
    pub bytes: [u8; 32],
}

impl View for Address {
    type V = Seq<u8>;

    open spec fn view(&self) -> Seq<u8> {
        self.bytes@
    }
}

impl PartialEq for Address {
    fn eq(&self, other: &Address) -> (same: bool) {
        let mut i: usize = 0;
        while i < 32
            invariant
                i <= 32,
                forall|j: int| 0 <= j < i ==> self.bytes@[j] == other.bytes@[j],
            decreases 32 - i,
        {
            if self.bytes[i] != other.bytes[i] {
                return false;
            }
            i += 1;
        }
        assert(self.bytes@ =~= other.bytes@);
        true
    }
}

impl Eq for Address {

}

impl PartialEqSpecImpl for Address {
    open spec fn obeys_eq_spec() -> bool {
        true
    }

    open spec fn eq_spec(&self, other: &Address) -> bool {
        self@ == other@
    }
}

impl Address {
    /// The address made of `bytes`.
    pub fn new(bytes: [u8; 32]) -> (address: Address)
        ensures
            address@ == bytes@,
            address.bytes == bytes,
    {
        Address { bytes }
    }

    /// The 32 bytes of the address.
    pub fn to_bytes(&self) -> (bytes: [u8; 32])
        ensures
            bytes@ == self@,
            bytes == self.bytes,
    {
        self.bytes
    }
}

/// The bytes of an array, as a vector.
pub fn bytes_of<const N: usize>(array: &[u8; N]) -> (bytes: Vec<u8>)
    ensures
        bytes@ == array@,
{
    let mut bytes: Vec<u8> = Vec::new();
    let mut i: usize = 0;
    while i < N
        invariant
            i <= N,
            bytes@ == array@.take(i as int),
        decreases N - i,
    {
        bytes.push(array[i]);
        assert(array@.take(i + 1) =~= array@.take(i as int).push(array@[i as int]));
        i += 1;
    }
    assert(array@.take(N as int) =~= array@);
    bytes
}

/// The address that belongs to a program for a list of seeds, together with
/// the bump that completes the seeds, or `None` where the seeds admit no
/// address. It is what `Pubkey::try_find_program_address` computes: a hash of
/// the seeds, the bump and the program's address, for the largest bump whose
/// hash is no point of the curve.
pub uninterp spec fn program_address(seeds: Seq<Seq<u8>>, program_id: Seq<u8>) -> Option<
    (Seq<u8>, u8),
>;

/// The seeds as sequences of bytes.
pub open spec fn seeds_view(seeds: Seq<Vec<u8>>) -> Seq<Seq<u8>> {
    Seq::new(seeds.len(), |i: int| seeds[i]@)
}

/// Trusted: calls `Pubkey::try_find_program_address` of `anchor_lang` on the
/// seeds and the program's address. The contract claims only that the call is a
/// function of its arguments, named [`program_address`]; nothing is claimed of
/// the value itself.
#[verifier::external_body]
fn find_program_address(seeds: &Vec<Vec<u8>>, program_id: &Address) -> (found: Option<
    (Address, u8),
>)
    ensures
        match found {
            Some((address, bump)) => program_address(seeds_view(seeds@), program_id@) == Some(
                (address@, bump),
            ),
            None => program_address(seeds_view(seeds@), program_id@) is None,
        },
{
    let parts: Vec<&[u8]> = seeds.iter().map(|seed| seed.as_slice()).collect();
    let program = Pubkey::new_from_array(program_id.bytes);
    Pubkey::try_find_program_address(&parts, &program).map(
        |(key, bump)| (Address { bytes: key.to_bytes() }, bump),
    )
}

/// The seeds of the round with identifier `id`: the round namespace, then the
/// identifier as eight bytes, lowest first.
pub open spec fn lottery_seeds(id: u64) -> Seq<Seq<u8>> {
    seq![LOTTERY_SEED@, spec_u64_to_le_bytes(id)]
}

/// The seeds of the ticket that `participant` holds in the round at `lottery`:
/// the ticket namespace, the round's address, the participant's address.
pub open spec fn ticket_seeds(lottery: Seq<u8>, participant: Seq<u8>) -> Seq<Seq<u8>> {
    seq![TICKET_SEED@, lottery, participant]
}

/// Address and bump of the round with identifier `id` under `program_id`.
pub open spec fn spec_lottery_address(program_id: Seq<u8>, id: u64) -> Option<(Seq<u8>, u8)> {
    program_address(lottery_seeds(id), program_id)
}

/// Address and bump of the ticket of `participant` in the round at `lottery`.
pub open spec fn spec_ticket_address(
    program_id: Seq<u8>,
    lottery: Seq<u8>,
    participant: Seq<u8>,
) -> Option<(Seq<u8>, u8)> {
    program_address(ticket_seeds(lottery, participant), program_id)
}

/// Derives the address of the round with identifier `id`.
pub fn lottery_address(program_id: &Address, id: u64) -> (found: Option<(Address, u8)>)
    ensures
        match found {
            Some((address, bump)) => spec_lottery_address(program_id@, id) == Some(
                (address@, bump),
            ),
            None => spec_lottery_address(program_id@, id) is None,
        },
{
    let mut seeds: Vec<Vec<u8>> = Vec::new();
    seeds.push(bytes_of(&LOTTERY_SEED));
    seeds.push(u64_to_le_bytes(id));
    assert(seeds_view(seeds@) =~= lottery_seeds(id));
    find_program_address(&seeds, program_id)
}

/// Derives the address of the ticket that `participant` holds in the round at
/// `lottery`.
pub fn ticket_address(program_id: &Address, lottery: &Address, participant: &Address) -> (found:
    Option<(Address, u8)>)
    ensures
        match found {
            Some((address, bump)) => spec_ticket_address(program_id@, lottery@, participant@)
                == Some((address@, bump)),
            None => spec_ticket_address(program_id@, lottery@, participant@) is None,
        },
{
    let mut seeds: Vec<Vec<u8>> = Vec::new();
    seeds.push(bytes_of(&TICKET_SEED));
    seeds.push(bytes_of(&lottery.bytes));
    seeds.push(bytes_of(&participant.bytes));
    assert(seeds_view(seeds@) =~= ticket_seeds(lottery@, participant@));
    find_program_address(&seeds, program_id)
}

} // verus!
