//! A map from token ids to values.

use crate::token_id::{pow2_128, pow2_256, pow2_64, TokenId};
use std::collections::HashMap;
use vstd::arithmetic::div_mod::{lemma_fundamental_div_mod, lemma_fundamental_div_mod_converse};
use vstd::prelude::*;

verus! {

broadcast use vstd::std_specs::hash::group_hash_axioms;

/// The upper 128 bits of a number below two to the power 256.
pub open spec fn high_half(n: nat) -> u128 {
    (n / pow2_128()) as u128
}

/// The lower 128 bits of a number.
pub open spec fn low_half(n: nat) -> u128 {
    (n % pow2_128()) as u128
}

/// A number below two to the power 256 is made of its two halves.
proof fn lemma_halves(n: nat)
    requires
        n < pow2_256(),
    ensures
        n == high_half(n) as nat * pow2_128() + low_half(n) as nat,
{
    lemma_fundamental_div_mod(n as int, pow2_128() as int);
}

/// The two halves of a token id, as its words give them.
proof fn lemma_halves_of_limbs(id: TokenId)
    ensures
        id@ < pow2_256(),
        high_half(id@) as nat == id.limbs[2] as nat + id.limbs[3] as nat * pow2_64(),
        low_half(id@) as nat == id.limbs[0] as nat + id.limbs[1] as nat * pow2_64(),
{
    let low = id.limbs[0] as int + id.limbs[1] as int * pow2_64();
    let high = id.limbs[2] as int + id.limbs[3] as int * pow2_64();
    assert(id@ == high * pow2_128() + low);
    assert(0 <= low < pow2_128());
    assert(0 <= high < pow2_128());
    lemma_fundamental_div_mod_converse(id@ as int, pow2_128() as int, high, low);
}

/// The upper 128 bits of a token id.
fn high_key(id: &TokenId) -> (k: u128)
    ensures
        k == high_half(id@),
{
    proof {
        lemma_halves_of_limbs(*id);
    }
    id.limbs[2] as u128 + (id.limbs[3] as u128) * 0x1_0000_0000_0000_0000u128
}

/// The lower 128 bits of a token id.
fn low_key(id: &TokenId) -> (k: u128)
    ensures
        k == low_half(id@),
{
    proof {
        lemma_halves_of_limbs(*id);
    }
    id.limbs[0] as u128 + (id.limbs[1] as u128) * 0x1_0000_0000_0000_0000u128
}

/// A map from token ids to values. What a hash map does with its keys is
/// known to the verifier only where the keys are primitive integers, and a
/// token id has 256 bits, more than any of them. So the values stand in one
/// hash map for each upper half of an id, keyed by the lower half: a lookup
/// is two lookups by `u128`.
#[derive(Debug)]
pub struct TokenMap<V> {
    shelves: HashMap<u128, HashMap<u128, V>>,
}

impl<V> View for TokenMap<V> {
    type V = Map<nat, V>;

    closed spec fn view(&self) -> Map<nat, V> {
        Map::new(
            |n: nat|
                n < pow2_256() && self.shelves@.contains_key(high_half(n))
                    && self.shelves@[high_half(n)]@.contains_key(low_half(n)),
            |n: nat| self.shelves@[high_half(n)]@[low_half(n)],
        )
    }
}

impl<V> TokenMap<V> {
    /// The empty map.
    pub fn new() -> (r: TokenMap<V>)
        ensures
            r@ == Map::<nat, V>::empty(),
    {
        let r = TokenMap { shelves: HashMap::new() };
        assert(r@ =~= Map::<nat, V>::empty());
        r
    }

    /// The value that stands under `id`, if there is one.
    pub fn get(&self, id: &TokenId) -> (r: Option<&V>)
        ensures
            match r {
                Some(v) => self@.contains_key(id@) && *v == self@[id@],
                None => !self@.contains_key(id@),
            },
    {
        proof {
            lemma_halves_of_limbs(*id);
        }
        let high = high_key(id);
        let low = low_key(id);
        match self.shelves.get(&high) {
            Some(shelf) => shelf.get(&low),
            None => None,
        }
    }

    /// Puts `value` under `id`, in place of what stood there.
    pub fn insert(&mut self, id: TokenId, value: V)
        ensures
            final(self)@ == old(self)@.insert(id@, value),
    {
        proof {
            lemma_halves_of_limbs(id);
        }
        let high = high_key(&id);
        let low = low_key(&id);
        let mut shelf = match self.shelves.remove(&high) {
            Some(shelf) => shelf,
            None => HashMap::new(),
        };
        shelf.insert(low, value);
        self.shelves.insert(high, shelf);
        assert forall|n: nat| #[trigger]
            self@.contains_key(n) == old(self)@.insert(id@, value).contains_key(n) by {
            if n < pow2_256() {
                lemma_halves(n);
                lemma_halves(id@);
            }
        }
        assert forall|n: nat| self@.contains_key(n) implies #[trigger] self@[n] == old(self)@.insert(
            id@,
            value,
        )[n] by {
            lemma_halves(n);
            lemma_halves(id@);
        }
        assert(self@ =~= old(self)@.insert(id@, value));
    }
}

} // verus!
