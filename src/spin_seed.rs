//! The weak random draw of a spin. It is derived from public, predictable
//! inputs (the participant, their spin count and a recent-block account key),
//! so a motivated participant can foresee or bias it: it only decides
//! low-stakes branching. The spin engine takes the draw as an argument, so a
//! stronger source can replace this one without touching the payout logic.
use vstd::prelude::*;
use anchor_lang::prelude::Pubkey;

use crate::address::Address;

verus! {

/// Bump seed of the program address found for `seeds` under `program_id`.
pub uninterp spec fn program_address_bump(seeds: Seq<Seq<u8>>, program_id: Seq<u8>) -> Option<u8>;

/// Relies on `Pubkey::try_find_program_address` (solana-address, reached
/// through anchor-lang's prelude): the bump seed of the first valid program
/// address for `seeds` under `program_id`, or `None` when no bump works or
/// the seeds are too many or too long. It is a hash of its arguments alone.
#[verifier::external_body]
fn find_program_address_bump(seeds: &Vec<Vec<u8>>, program_id: &[u8; 32]) -> (r: Option<u8>)
    ensures
        r == program_address_bump(seeds.deep_view(), program_id@),
{
    let slices: Vec<&[u8]> = seeds.iter().map(|s| s.as_slice()).collect();
    Pubkey::try_find_program_address(&slices, &Pubkey::new_from_array(*program_id)).map(
        |(_, bump)| bump,
    )
}

/// The tag that opens the seeds of a spin draw: the bytes of `spin_result`.
pub open spec fn spin_tag() -> Seq<u8> {
    seq![115u8, 112, 105, 110, 95, 114, 101, 115, 117, 108, 116]
}

/// Little-endian bytes of `x`.
pub open spec fn u32_le_bytes(x: u32) -> Seq<u8> {
    seq![
        (x % 256) as u8,
        ((x / 256) % 256) as u8,
        ((x / 65536) % 256) as u8,
        (x / 16777216) as u8,
    ]
}

/// Seeds of the draw for a participant's next spin.
pub open spec fn spin_seeds(user: Seq<u8>, total_spins: u32, recent_blockhashes: Seq<u8>) -> Seq<
    Seq<u8>,
> {
    seq![spin_tag(), user, u32_le_bytes(total_spins), recent_blockhashes]
}

fn bytes_of(key: &Address) -> (r: Vec<u8>)
    ensures
        r@ == key.bytes@,
{
    let mut r: Vec<u8> = Vec::new();
    let mut i: usize = 0;
    while i < 32
        invariant
            i <= 32,
            key.bytes@.len() == 32,
            r@ == key.bytes@.subrange(0, i as int),
        decreases 32 - i,
    {
        r.push(key.bytes[i]);
        i += 1;
    }
    assert(r@ =~= key.bytes@);
    r
}

/// The weak random draw of the next spin of `user`, who has spun
/// `total_spins` times, from the key of the recent-blockhashes account under
/// `program_id`; `None` when no program address can be derived.
pub fn spin_random_value(
    user: &Address,
    total_spins: u32,
    recent_blockhashes: &Address,
    program_id: &Address,
) -> (r: Option<u8>)
    ensures
        r == program_address_bump(
            spin_seeds(user.bytes@, total_spins, recent_blockhashes.bytes@),
            program_id.bytes@,
        ),
{
    let tag: Vec<u8> = vec![115u8, 112, 105, 110, 95, 114, 101, 115, 117, 108, 116];
    let count: Vec<u8> = vec![
        (total_spins % 256) as u8,
        ((total_spins / 256) % 256) as u8,
        ((total_spins / 65536) % 256) as u8,
        (total_spins / 16777216) as u8,
    ];
    let user_bytes = bytes_of(user);
    let hash_bytes = bytes_of(recent_blockhashes);
    proof {
        assert(tag@ =~= spin_tag());
        assert(count@ =~= u32_le_bytes(total_spins));
        assert(tag.deep_view() =~= tag@);
        assert(count.deep_view() =~= count@);
        assert(user_bytes.deep_view() =~= user_bytes@);
        assert(hash_bytes.deep_view() =~= hash_bytes@);
    }
    let mut seeds: Vec<Vec<u8>> = Vec::new();
    seeds.push(tag);
    seeds.push(user_bytes);
    seeds.push(count);
    seeds.push(hash_bytes);
    assert(seeds.deep_view() =~= spin_seeds(
        user.bytes@,
        total_spins,
        recent_blockhashes.bytes@,
    ));
    find_program_address_bump(&seeds, &program_id.bytes)
}

} // verus!
