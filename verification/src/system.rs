//! The system pallet: bookkeeping the runtime relies on — the current
//! block number and a per-account nonce that counts the extrinsics
//! attributed to each account.

use vstd::prelude::*;
use vstd::hash_map::StringHashMap;

verus! {

/// The nonce recorded for `who` in the nonce map `m`: the stored value, or
/// zero when the account has sent nothing yet.
pub open spec fn nonce_of(m: Map<Seq<char>, u32>, who: Seq<char>) -> u32 {
    if m.contains_key(who) {
        m[who]
    } else {
        0
    }
}

/// The system pallet: tracks the current block number and each account's
/// nonce.
pub struct Pallet {
    block_number: u32,
    nonce: StringHashMap<u32>,
}

impl Pallet {
    /// The current block number.
    pub closed spec fn spec_block_number(&self) -> u32 {
        self.block_number
    }

    /// The per-account nonce map.
    pub closed spec fn nonces(&self) -> Map<Seq<char>, u32> {
        self.nonce@
    }

    /// Creates a pallet at block number zero with no nonces recorded.
    pub fn new() -> (result: Self)
        ensures
            result.spec_block_number() == 0,
            result.nonces() == Map::<Seq<char>, u32>::empty(),
    {
        Pallet { block_number: 0, nonce: StringHashMap::new() }
    }

    /// Returns the current block number.
    pub fn block_number(&self) -> (number: u32)
        ensures
            number == self.spec_block_number(),
    {
        self.block_number
    }

    /// Returns the nonce of account `who`: how many extrinsics attributed
    /// to `who` have been executed. Zero if none has.
    pub fn nonce(&self, who: &String) -> (n: u32)
        ensures
            n == nonce_of(self.nonces(), who@),
    {
        match self.nonce.get(who.as_str()) {
            Some(n) => *n,
            None => 0,
        }
    }

    /// Advances the block number by one and returns the new value.
    pub fn inc_block_number(&mut self) -> (number: u32)
        requires
            old(self).spec_block_number() < u32::MAX,
        ensures
            number == old(self).spec_block_number() + 1,
            final(self).spec_block_number() == number,
            final(self).nonces() == old(self).nonces(),
    {
        self.block_number = self.block_number + 1;
        self.block_number
    }

    /// Advances the nonce of account `who` by one.
    pub fn inc_nonce(&mut self, who: &String)
        requires
            nonce_of(old(self).nonces(), who@) < u32::MAX,
        ensures
            final(self).nonces() == old(self).nonces().insert(
                who@,
                (nonce_of(old(self).nonces(), who@) + 1) as u32,
            ),
            final(self).spec_block_number() == old(self).spec_block_number(),
    {
        let current: u32 = match self.nonce.get(who.as_str()) {
            Some(n) => *n,
            None => 0,
        };
        self.nonce.insert(who.clone(), current + 1);
    }
}

} // verus!
