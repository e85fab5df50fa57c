//! What holds of the order of byte strings and of the sets that are kept in it.

use crate::convert::key_bytes;
use crate::model::PublicKey;
use crate::order::{agree, place_of, precedes, precedes_is_irreflexive, precedes_is_transitive, Place};
use crate::signer_set::{ascending, SignerSet};
use vstd::prelude::*;

verus! {

/// Whether a byte string comes before another in a dictionary.
pub open spec fn comes_first(a: Seq<u8>, b: Seq<u8>) -> bool {
    exists|k: int| #[trigger] differ_first(a, b, k)
}

/// Whether a byte string lies before another because of what follows the bytes
/// with which both begin: it has none, or a smaller one.
pub open spec fn differ_first(a: Seq<u8>, b: Seq<u8>, k: int) -> bool {
    &&& 0 <= k <= a.len()
    &&& k < b.len()
    &&& a.take(k) == b.take(k)
    &&& k == a.len() || a[k] < b[k]
}

/// Byte strings are compared as in a dictionary.
pub proof fn bytes_are_compared_as_in_a_dictionary(a: Seq<u8>, b: Seq<u8>)
    ensures
        precedes(a, b) <==> comes_first(a, b),
{
    if precedes(a, b) {
        let k = choose|k: int| #[trigger]
            agree(a, b, k) && k < b.len() && (k == a.len() || a[k] < b[k]);
        assert(a.take(k) =~= b.take(k));
        assert(differ_first(a, b, k));
    }
    if comes_first(a, b) {
        let k = choose|k: int| #[trigger] differ_first(a, b, k);
        assert forall|j: int| 0 <= j < k implies a[j] == b[j] by {
            assert(a.take(k)[j] == b.take(k)[j]);
        }
        assert(agree(a, b, k));
    }
}

/// Two byte strings are compared as in a dictionary, and are the same only where
/// they are equal.
pub proof fn place_is_that_of_a_dictionary(a: &[u8], b: &[u8], place: Place)
    requires
        call_ensures(place_of, (a, b), place),
    ensures
        place is Before <==> comes_first(a@, b@),
        place is After <==> comes_first(b@, a@),
        place is Same <==> a@ == b@,
{
    bytes_are_compared_as_in_a_dictionary(a@, b@);
    bytes_are_compared_as_in_a_dictionary(b@, a@);
    precedes_is_irreflexive(a@);
    precedes_is_irreflexive(b@);
    if precedes(a@, b@) && precedes(b@, a@) {
        precedes_is_transitive(a@, b@, a@);
    }
}

/// Whether each key of a list comes before all that follow it; so none is there
/// twice.
pub open spec fn strictly_ordered(keys: Seq<Seq<u8>>) -> bool {
    forall|i: int, j: int|
        0 <= i < j < keys.len() ==> comes_first(#[trigger] keys[i], #[trigger] keys[j])
}

/// Ascending keys are strictly ordered.
proof fn ascending_is_strictly_ordered(keys: Seq<Seq<u8>>)
    requires
        ascending(keys),
    ensures
        strictly_ordered(keys),
{
    assert forall|i: int, j: int| 0 <= i < j < keys.len() implies comes_first(
        #[trigger] keys[i],
        #[trigger] keys[j],
    ) by {
        bytes_are_compared_as_in_a_dictionary(keys[i], keys[j]);
    }
}

/// A set that is made of keys has exactly those keys, each once and in order.
pub proof fn set_has_its_keys(keys: Vec<PublicKey>, set: SignerSet, i: int, key: Seq<u8>)
    requires
        call_ensures(SignerSet::of, (&keys,), set),
    ensures
        strictly_ordered(set@),
        0 <= i < keys@.len() ==> set@.contains(keys@[i].0@),
        set@.contains(key) ==> exists|j: int|
            0 <= j < keys@.len() && (#[trigger] keys@[j]).0@ == key,
{
    ascending_is_strictly_ordered(set@);
    let all = key_bytes(keys@);
    if 0 <= i < keys@.len() {
        assert(all[i] == keys@[i].0@);
        assert(all.contains(keys@[i].0@));
    }
    if set@.contains(key) {
        let j = all.index_of(key);
        assert(keys@[j].0@ == key);
    }
}

/// A set with one more key has that key and those it had, each once and in order.
pub proof fn set_grows_by_a_key(before: SignerSet, key: PublicKey, set: SignerSet, other: Seq<u8>)
    requires
        call_ensures(SignerSet::with, (before, key), set),
    ensures
        strictly_ordered(set@),
        set@.contains(other) <==> before@.contains(other) || other == key.0@,
{
    ascending_is_strictly_ordered(set@);
}

/// The new set is empty, and the keys of a set are listed as they lie in it.
pub proof fn keys_are_listed(empty: SignerSet, set: SignerSet, keys: &Vec<PublicKey>, i: int)
    requires
        call_ensures(SignerSet::new, (), empty),
        call_ensures(SignerSet::keys, (&set,), keys),
    ensures
        empty@.len() == 0,
        keys@.len() == set@.len(),
        0 <= i < keys@.len() ==> keys@[i].0@ == set@[i],
        strictly_ordered(set@),
{
    ascending_is_strictly_ordered(set@);
    assert(key_bytes(keys@).len() == keys@.len());
    if 0 <= i < keys@.len() {
        assert(key_bytes(keys@)[i] == keys@[i].0@);
    }
}

} // verus!
