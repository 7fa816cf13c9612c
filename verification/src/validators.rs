//! The validators of the scenario and their keys.

use crate::crypto::{account, benchmark_account, sr25519_public, AccountId, KeyPair, PublicKey};
use vstd::prelude::*;

verus! {

/// A validator's account and its key pair.
#[derive(Clone, Copy)]
pub struct ValidatorPair {
    pub account: AccountId,
    pub pair: KeyPair,
}

/// A validator's public key, and the pair that the key belongs to.
#[derive(Clone, Copy)]
pub struct SessionValidator {
    pub public: PublicKey,
    pub pair: KeyPair,
}

/// The account of the validator numbered `index`.
pub open spec fn validator_account(index: u32) -> Seq<u8> {
    benchmark_account("validator"@, index, index)
}

/// A validator with its account for each of the drawn key pairs, in order.
pub fn validator_pairs(drawn: &Vec<KeyPair>) -> (res: Vec<ValidatorPair>)
    requires
        drawn@.len() <= u32::MAX,
    ensures
        res@.len() == drawn@.len(),
        forall|i: int|
            0 <= i < drawn@.len() ==> {
                &&& (#[trigger] res@[i]).pair == drawn@[i]
                &&& res@[i].account@ == validator_account(i as u32)
                &&& res@[i].account@ == benchmark_account("validator"@, i as u32, i as u32)
            },
{
    let mut pairs: Vec<ValidatorPair> = Vec::new();
    for i in 0..drawn.len()
        invariant
            drawn@.len() <= u32::MAX,
            pairs@.len() == i,
            forall|j: int|
                0 <= j < i ==> {
                    &&& (#[trigger] pairs@[j]).pair == drawn@[j]
                    &&& pairs@[j].account@ == validator_account(j as u32)
                },
    {
        let index: u32 = i as u32;
        proof {
            reveal_strlit("validator");
        }
        pairs.push(ValidatorPair { account: account("validator", index, index), pair: drawn[i] });
    }
    pairs
}

/// Draws a key pair for the validator numbered `_validator`: one draw for each call.
pub fn draw_key_pair(_validator: u32) -> (res: KeyPair)
    ensures
        res.drawn(),
{
    KeyPair::generate()
}

/// A validator with a fresh key pair for each number below `max_validators`. The pair of each
/// validator is what the draw made for that validator gave; which pair that is, is chance.
pub fn generate_validator_pairs(max_validators: u32) -> (res: Vec<ValidatorPair>)
    ensures
        res@.len() == max_validators,
        forall|i: int|
            0 <= i < max_validators ==> (#[trigger] res@[i]).account@ == validator_account(
                i as u32,
            ),
        forall|i: int|
            0 <= i < max_validators ==> {
                &&& call_ensures(draw_key_pair, (i as u32,), (#[trigger] res@[i]).pair)
                &&& res@[i].pair.drawn()
                &&& res@[i].account@ == benchmark_account("validator"@, i as u32, i as u32)
            },
{
    let mut drawn: Vec<KeyPair> = Vec::new();
    let draw = draw_key_pair;
    for i in 0..max_validators
        invariant
            drawn@.len() == i,
            forall|j: int|
                0 <= j < i ==> {
                    &&& call_ensures(draw_key_pair, (j as u32,), #[trigger] drawn@[j])
                    &&& drawn@[j].drawn()
                },
    {
        drawn.push(draw(i));
    }
    validator_pairs(&drawn)
}

/// However the draws fall, the pair of each validator is an outcome of the draw made for that
/// validator's own number, and the account beside it is the one of that number.
pub proof fn law_each_validator_has_a_draw_of_its_own(
    max_validators: u32,
    pairs: Vec<ValidatorPair>,
    i: int,
)
    requires
        call_ensures(generate_validator_pairs, (max_validators,), pairs),
        0 <= i < max_validators,
    ensures
        pairs@.len() == max_validators,
        call_ensures(draw_key_pair, (i as u32,), pairs@[i].pair),
        pairs@[i].pair.drawn(),
        pairs@[i].account@ == benchmark_account("validator"@, i as u32, i as u32),
{
    assert(pairs@[i].pair.drawn());
}

/// The accounts and public keys that a new session starts with, in order.
pub fn validators_public(pairs: &Vec<ValidatorPair>) -> (res: Vec<(AccountId, PublicKey)>)
    ensures
        res@.len() == pairs@.len(),
        forall|i: int|
            0 <= i < pairs@.len() ==> {
                &&& (#[trigger] res@[i]).0 == pairs@[i].account
                &&& res@[i].1@ == pairs@[i].pair.public_key()
                &&& res@[i].1@ == sr25519_public(pairs@[i].pair.seed@)
            },
{
    let mut keys: Vec<(AccountId, PublicKey)> = Vec::new();
    for i in 0..pairs.len()
        invariant
            keys@.len() == i,
            forall|j: int|
                0 <= j < i ==> {
                    &&& (#[trigger] keys@[j]).0 == pairs@[j].account
                    &&& keys@[j].1@ == pairs@[j].pair.public_key()
                },
    {
        keys.push((pairs[i].account, pairs[i].pair.public()));
    }
    keys
}

/// The map from public keys to key pairs that filing `pairs` one after another gives.
pub open spec fn pairs_by_key(pairs: Seq<ValidatorPair>) -> Map<Seq<u8>, KeyPair>
    decreases pairs.len(),
{
    if pairs.len() == 0 {
        Map::empty()
    } else {
        pairs_by_key(pairs.drop_last()).insert(pairs.last().pair.public_key(), pairs.last().pair)
    }
}

/// What is filed under a public key is the pair that the key belongs to, and every pair's key is
/// in the map.
pub proof fn law_pairs_are_filed_under_their_keys(pairs: Seq<ValidatorPair>)
    ensures
        forall|key: Seq<u8>| #[trigger]
            pairs_by_key(pairs).contains_key(key) ==> pairs_by_key(pairs)[key].public_key() == key,
        forall|i: int|
            0 <= i < pairs.len() ==> pairs_by_key(pairs).contains_key(
                (#[trigger] pairs[i]).pair.public_key(),
            ),
    decreases pairs.len(),
{
    if pairs.len() > 0 {
        law_pairs_are_filed_under_their_keys(pairs.drop_last());
        let rest = pairs_by_key(pairs.drop_last());
        assert forall|key: Seq<u8>| #[trigger]
            pairs_by_key(pairs).contains_key(key) implies pairs_by_key(pairs)[key].public_key()
            == key by {
            if key != pairs.last().pair.public_key() {
                assert(rest.contains_key(key));
            }
        }
        assert forall|i: int| 0 <= i < pairs.len() implies pairs_by_key(pairs).contains_key(
            (#[trigger] pairs[i]).pair.public_key(),
        ) by {
            if i < pairs.len() - 1 {
                assert(pairs.drop_last()[i] == pairs[i]);
            }
        }
    }
}

/// Every key that a session starts with is found again: a pair with that very key is filed under
/// it, and the account beside the key is that of the pair.
pub proof fn law_public_keys_are_found_again(
    pairs: Vec<ValidatorPair>,
    keys: Vec<(AccountId, PublicKey)>,
    i: int,
)
    requires
        call_ensures(validators_public, (&pairs,), keys),
        0 <= i < pairs@.len(),
    ensures
        keys@.len() == pairs@.len(),
        keys@[i].0 == pairs@[i].account,
        keys@[i].1@ == sr25519_public(pairs@[i].pair.seed@),
        pairs_by_key(pairs@).contains_key(keys@[i].1@),
        sr25519_public(pairs_by_key(pairs@)[keys@[i].1@].seed@) == keys@[i].1@,
{
    law_pairs_are_filed_under_their_keys(pairs@);
    assert(keys@[i].0 == pairs@[i].account);
    assert(pairs_by_key(pairs@).contains_key(pairs@[i].pair.public_key()));
}

/// What is filed under the key of a pair is that pair, where no later pair has the same key.
pub proof fn law_the_last_pair_of_a_key_is_filed(pairs: Seq<ValidatorPair>, i: int)
    requires
        0 <= i < pairs.len(),
        forall|j: int|
            i < j < pairs.len() ==> sr25519_public((#[trigger] pairs[j]).pair.seed@)
                != sr25519_public(pairs[i].pair.seed@),
    ensures
        pairs_by_key(pairs).contains_key(sr25519_public(pairs[i].pair.seed@)),
        pairs_by_key(pairs)[sr25519_public(pairs[i].pair.seed@)] == pairs[i].pair,
    decreases pairs.len(),
{
    if i < pairs.len() - 1 {
        let rest = pairs.drop_last();
        assert forall|j: int| i < j < rest.len() implies sr25519_public(
            (#[trigger] rest[j]).pair.seed@,
        ) != sr25519_public(rest[i].pair.seed@) by {
            assert(rest[j] == pairs[j]);
        }
        law_the_last_pair_of_a_key_is_filed(rest, i);
        assert(pairs.last() == pairs[pairs.len() - 1]);
    }
}

/// Nothing is filed under a key that no pair has.
pub proof fn law_other_keys_are_not_filed(pairs: Seq<ValidatorPair>, key: Seq<u8>)
    requires
        forall|i: int|
            0 <= i < pairs.len() ==> sr25519_public((#[trigger] pairs[i]).pair.seed@) != key,
    ensures
        !pairs_by_key(pairs).contains_key(key),
    decreases pairs.len(),
{
    if pairs.len() > 0 {
        let rest = pairs.drop_last();
        assert forall|i: int| 0 <= i < rest.len() implies sr25519_public(
            (#[trigger] rest[i]).pair.seed@,
        ) != key by {
            assert(rest[i] == pairs[i]);
        }
        law_other_keys_are_not_filed(rest, key);
        assert(pairs.last() == pairs[pairs.len() - 1]);
    }
}

/// Whether two keys have the same bytes.
pub(crate) fn same_key(a: &PublicKey, b: &PublicKey) -> (res: bool)
    ensures
        res == (a@ == b@),
{
    for i in 0..32usize
        invariant
            a@.take(i as int) =~= b@.take(i as int),
    {
        if a[i] != b[i] {
            assert(a@[i as int] != b@[i as int]);
            return false;
        }
        assert(a@.take(i + 1) =~= a@.take(i as int).push(a@[i as int]));
        assert(b@.take(i + 1) =~= b@.take(i as int).push(b@[i as int]));
    }
    assert(a@.take(32) =~= a@);
    assert(b@.take(32) =~= b@);
    true
}

/// Finds the key pair of a validator by its public key.
pub struct ValidatorMap {
    pairs: Vec<ValidatorPair>,
    keys: Vec<PublicKey>,
}

impl View for ValidatorMap {
    type V = Map<Seq<u8>, KeyPair>;

    closed spec fn view(&self) -> Map<Seq<u8>, KeyPair> {
        pairs_by_key(self.pairs@)
    }
}

impl ValidatorMap {
    /// The public key of each pair stands beside it.
    #[verifier::type_invariant]
    spec fn keys_match(self) -> bool {
        &&& self.keys@.len() == self.pairs@.len()
        &&& forall|i: int|
            0 <= i < self.pairs@.len() ==> (#[trigger] self.keys@[i])@
                == self.pairs@[i].pair.public_key()
    }

    /// Files every pair under its public key.
    pub fn new(pairs: &Vec<ValidatorPair>) -> (res: ValidatorMap)
        ensures
            res@ == pairs_by_key(pairs@),
    {
        let mut filed: Vec<ValidatorPair> = Vec::new();
        let mut keys: Vec<PublicKey> = Vec::new();
        for i in 0..pairs.len()
            invariant
                filed@ =~= pairs@.take(i as int),
                keys@.len() == i,
                forall|j: int|
                    0 <= j < i ==> (#[trigger] keys@[j])@ == filed@[j].pair.public_key(),
        {
            filed.push(pairs[i]);
            keys.push(pairs[i].pair.public());
        }
        assert(filed@ =~= pairs@);
        ValidatorMap { pairs: filed, keys }
    }

    /// The pair that is filed under `public`, if there is one.
    pub fn get(&self, public: &PublicKey) -> (res: Option<KeyPair>)
        ensures
            res is Some <==> self@.contains_key(public@),
            res matches Some(pair) ==> pair == self@[public@],
            res matches Some(pair) ==> sr25519_public(pair.seed@) == public@,
    {
        proof {
            use_type_invariant(self);
        }
        let mut i: usize = self.pairs.len();
        assert(self.pairs@.take(i as int) =~= self.pairs@);
        while i > 0
            invariant
                i <= self.pairs@.len(),
                self.keys_match(),
                self@.contains_key(public@) == pairs_by_key(
                    self.pairs@.take(i as int),
                ).contains_key(public@),
                self@.contains_key(public@) ==> self@[public@] == pairs_by_key(
                    self.pairs@.take(i as int),
                )[public@],
            decreases i,
        {
            let ghost prefix = self.pairs@.take(i as int);
            i = i - 1;
            assert(prefix.drop_last() =~= self.pairs@.take(i as int));
            assert(prefix.last() == self.pairs@[i as int]);
            if same_key(&self.keys[i], public) {
                return Some(self.pairs[i].pair);
            }
        }
        None
    }
}

/// Pairs each key of the session with the key pair that it belongs to, in the session's order.
pub fn shuffled_validators(session: &Vec<PublicKey>, map: &ValidatorMap) -> (res: Vec<
    SessionValidator,
>)
    requires
        forall|i: int| 0 <= i < session@.len() ==> map@.contains_key((#[trigger] session@[i])@),
    ensures
        res@.len() == session@.len(),
        forall|i: int|
            0 <= i < session@.len() ==> {
                &&& (#[trigger] res@[i]).public == session@[i]
                &&& res@[i].pair == map@[session@[i]@]
                &&& sr25519_public(res@[i].pair.seed@) == session@[i]@
            },
{
    let mut validators: Vec<SessionValidator> = Vec::new();
    for i in 0..session.len()
        invariant
            forall|j: int| 0 <= j < session@.len() ==> map@.contains_key((#[trigger] session@[j])@),
            validators@.len() == i,
            forall|j: int|
                0 <= j < i ==> {
                    &&& (#[trigger] validators@[j]).public == session@[j]
                    &&& validators@[j].pair == map@[session@[j]@]
                    &&& sr25519_public(validators@[j].pair.seed@) == session@[j]@
                },
    {
        let public: PublicKey = session[i];
        assert(map@.contains_key(session@[i as int]@));
        match map.get(&public) {
            Some(pair) => {
                validators.push(SessionValidator { public, pair });
            },
            None => {
                assert(false);
            },
        }
    }
    validators
}

/// Pairs each key of the session with its key pair where every key has one.
pub fn find_session_validators(session: &Vec<PublicKey>, map: &ValidatorMap) -> (res: Option<
    Vec<SessionValidator>,
>)
    ensures
        res is Some <==> forall|i: int|
            0 <= i < session@.len() ==> map@.contains_key((#[trigger] session@[i])@),
        res matches Some(validators) ==> {
            &&& validators@.len() == session@.len()
            &&& forall|i: int|
                0 <= i < session@.len() ==> {
                    &&& (#[trigger] validators@[i]).public == session@[i]
                    &&& validators@[i].pair == map@[session@[i]@]
                    &&& sr25519_public(validators@[i].pair.seed@) == session@[i]@
                }
        },
{
    for i in 0..session.len()
        invariant
            forall|j: int| 0 <= j < i ==> map@.contains_key((#[trigger] session@[j])@),
    {
        if map.get(&session[i]).is_none() {
            assert(!map@.contains_key(session@[i as int]@));
            return None;
        }
    }
    Some(shuffled_validators(session, map))
}

/// Each validator of a session holds the key pair of the key that it is listed with.
pub proof fn law_session_validators_hold_their_keys(
    pairs: Seq<ValidatorPair>,
    validators: Seq<SessionValidator>,
)
    requires
        forall|i: int|
            0 <= i < validators.len() ==> {
                &&& pairs_by_key(pairs).contains_key((#[trigger] validators[i]).public@)
                &&& validators[i].pair == pairs_by_key(pairs)[validators[i].public@]
            },
    ensures
        forall|i: int|
            0 <= i < validators.len() ==> (#[trigger] validators[i]).pair.public_key()
                == validators[i].public@,
{
    law_pairs_are_filed_under_their_keys(pairs);
}

} // verus!
