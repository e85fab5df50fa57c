//! Sets of signers.

use crate::convert::key_bytes;
use crate::model::PublicKey;
use crate::order::{place_of, precedes, precedes_is_irreflexive, precedes_is_transitive, Place};
use vstd::prelude::*;

verus! {

/// Whether byte strings ascend strictly.
pub open spec fn ascending(keys: Seq<Seq<u8>>) -> bool {
    forall|i: int, j: int|
        0 <= i < j < keys.len() ==> precedes(#[trigger] keys[i], #[trigger] keys[j])
}

/// A set of public keys, in ascending order.
#[derive(Debug)]
pub struct SignerSet {
    keys: Vec<PublicKey>,
}

impl View for SignerSet {
    type V = Seq<Seq<u8>>;

    closed spec fn view(&self) -> Seq<Seq<u8>> {
        key_bytes(self.keys@)
    }
}

impl SignerSet {
    #[verifier::type_invariant]
    spec fn is_ascending(self) -> bool {
        ascending(self@)
    }

    /// The set without keys.
    pub fn new() -> (set: Self)
        ensures
            set@ == Seq::<Seq<u8>>::empty(),
    {
        let keys: Vec<PublicKey> = Vec::new();
        assert(key_bytes(keys@) =~= Seq::empty());
        SignerSet { keys }
    }

    /// A set has each key once, in ascending order.
    pub fn keys(&self) -> (keys: &Vec<PublicKey>)
        ensures
            key_bytes(keys@) == self@,
            ascending(self@),
    {
        proof {
            use_type_invariant(self);
        }
        &self.keys
    }

    /// The set with one more key, unless it has the key already.
    pub fn with(self, key: PublicKey) -> (set: Self)
        ensures
            ascending(set@),
            forall|k: Seq<u8>| #[trigger] set@.contains(k) <==> self@.contains(k) || k == key.0@,
    {
        proof {
            use_type_invariant(&self);
        }
        let mut keys = self.keys;
        let ghost before = key_bytes(keys@);
        let mut i: usize = 0;
        while i < keys.len()
            invariant
                i <= keys@.len(),
                before == key_bytes(keys@),
                before == self@,
                ascending(before),
                forall|j: int| 0 <= j < i ==> precedes(#[trigger] before[j], key.0@),
            decreases keys@.len() - i,
        {
            assert(before[i as int] == keys@[i as int].0@);
            match place_of(keys[i].0.as_slice(), key.0.as_slice()) {
                Place::Before => {
                    i = i + 1;
                },
                Place::Same => {
                    assert(before.contains(key.0@));
                    return SignerSet { keys };
                },
                Place::After => {
                    keys.insert(i, key);
                    proof {
                        assert(key_bytes(keys@) =~= before.insert(i as int, key.0@));
                        assert forall|j: int| i <= j < before.len() implies precedes(
                            key.0@,
                            #[trigger] before[j],
                        ) by {
                            if j > i {
                                precedes_is_transitive(key.0@, before[i as int], before[j]);
                            }
                        }
                        inserted_in_order(before, i as int, key.0@);
                    }
                    return SignerSet { keys };
                },
            }
        }
        keys.push(key);
        proof {
            assert(key_bytes(keys@) =~= before.insert(before.len() as int, key.0@));
            inserted_in_order(before, before.len() as int, key.0@);
        }
        SignerSet { keys }
    }

    /// The set of the given keys.
    pub fn of(keys: &Vec<PublicKey>) -> (set: Self)
        ensures
            ascending(set@),
            forall|k: Seq<u8>| #[trigger] set@.contains(k) <==> key_bytes(keys@).contains(k),
    {
        let mut set = SignerSet::new();
        let mut i: usize = 0;
        while i < keys.len()
            invariant
                i <= keys@.len(),
                ascending(set@),
                forall|k: Seq<u8>|
                    #[trigger] set@.contains(k) <==> key_bytes(keys@).take(i as int).contains(k),
            decreases keys@.len() - i,
        {
            let ghost all = key_bytes(keys@);
            let ghost before = set@;
            set = set.with(keys[i]);
            proof {
                let taken = all.take(i as int);
                assert(all.take(i + 1) =~= taken.push(keys@[i as int].0@));
                assert forall|k: Seq<u8>| #[trigger] set@.contains(k) implies all.take(
                    i + 1,
                ).contains(k) by {
                    if taken.contains(k) {
                        let m = taken.index_of(k);
                        assert(taken.push(keys@[i as int].0@)[m] == k);
                    } else {
                        assert(before.contains(k) || k == keys@[i as int].0@);
                        assert(taken.push(keys@[i as int].0@)[i as int] == k);
                    }
                }
                assert forall|k: Seq<u8>| all.take(i + 1).contains(k) implies #[trigger] set@.contains(
                    k,
                ) by {
                    let m = all.take(i + 1).index_of(k);
                    if m < i {
                        assert(taken[m] == k);
                        assert(taken.contains(k));
                        assert(before.contains(k));
                    }
                }
            }
            i = i + 1;
        }
        assert(key_bytes(keys@).take(keys@.len() as int) =~= key_bytes(keys@));
        set
    }
}

/// A key between the keys before and after it keeps the order.
proof fn inserted_in_order(keys: Seq<Seq<u8>>, i: int, key: Seq<u8>)
    requires
        0 <= i <= keys.len(),
        ascending(keys),
        forall|j: int| 0 <= j < i ==> precedes(#[trigger] keys[j], key),
        forall|j: int| i <= j < keys.len() ==> precedes(key, #[trigger] keys[j]),
    ensures
        ascending(keys.insert(i, key)),
        forall|k: Seq<u8>|
            #[trigger] keys.insert(i, key).contains(k) <==> keys.contains(k) || k == key,
{
    let after = keys.insert(i, key);
    assert forall|a: int, b: int| 0 <= a < b < after.len() implies precedes(
        #[trigger] after[a],
        #[trigger] after[b],
    ) by {
        let c = if a < i {
            a
        } else {
            a - 1
        };
        let d = if b < i {
            b
        } else {
            b - 1
        };
        if a != i && b != i {
            assert(after[a] == keys[c] && after[b] == keys[d]);
        } else if a == i {
            assert(after[b] == keys[d]);
        } else {
            assert(after[a] == keys[c]);
        }
    }
    assert forall|k: Seq<u8>| #[trigger] after.contains(k) <==> keys.contains(k) || k == key by {
        if after.contains(k) {
            let m = after.index_of(k);
            if m < i {
                assert(keys[m] == k);
            } else if m > i {
                assert(keys[m - 1] == k);
            }
        }
        if keys.contains(k) {
            let m = keys.index_of(k);
            if m < i {
                assert(after[m] == k);
            } else {
                assert(after[m + 1] == k);
            }
        }
        if k == key {
            assert(after[i] == k);
        }
    }
}

/// A set does not depend on the order in which its keys are given: two
/// ascending lists with the same keys are the same list.
pub proof fn ascending_is_unique(a: Seq<Seq<u8>>, b: Seq<Seq<u8>>)
    requires
        ascending(a),
        ascending(b),
        forall|key: Seq<u8>| #[trigger] a.contains(key) <==> b.contains(key),
    ensures
        a == b,
    decreases a.len(),
{
    if a.len() == 0 {
        if b.len() > 0 {
            assert(b.contains(b[0]));
            assert(a.contains(b[0]));
        }
        assert(a =~= b);
    } else {
        assert(a.contains(a[a.len() - 1]));
        assert(b.contains(a[a.len() - 1]));
        assert(b.contains(b[b.len() - 1]));
        assert(a.contains(b[b.len() - 1]));
        same_greatest(a, b);
        let c = a.drop_last();
        let d = b.drop_last();
        assert forall|key: Seq<u8>| #[trigger] c.contains(key) implies d.contains(key) by {
            only_the_last(a, b, key);
        }
        assert forall|key: Seq<u8>| #[trigger] d.contains(key) implies c.contains(key) by {
            only_the_last(b, a, key);
        }
        assert forall|key: Seq<u8>| #[trigger] c.contains(key) <==> d.contains(key) by {}
        assert(ascending(c));
        assert(ascending(d));
        ascending_is_unique(c, d);
        assert(a =~= c.push(a.last()));
        assert(b =~= d.push(b.last()));
    }
}

/// Two ascending lists that contain each other's last keys end in the same key.
proof fn same_greatest(a: Seq<Seq<u8>>, b: Seq<Seq<u8>>)
    requires
        ascending(a),
        ascending(b),
        a.len() > 0,
        b.len() > 0,
        b.contains(a.last()),
        a.contains(b.last()),
    ensures
        a.last() == b.last(),
{
    let i = b.index_of(a.last());
    let j = a.index_of(b.last());
    if i < b.len() - 1 && j < a.len() - 1 {
        assert(precedes(b[i], b[b.len() - 1]));
        assert(precedes(a[j], a[a.len() - 1]));
        precedes_is_transitive(a.last(), b.last(), a.last());
        precedes_is_irreflexive(a.last());
    }
}

/// A key of an ascending list without its last one is also one of another such
/// list with the same last key.
proof fn only_the_last(a: Seq<Seq<u8>>, b: Seq<Seq<u8>>, key: Seq<u8>)
    requires
        ascending(a),
        a.len() > 0,
        b.len() > 0,
        a.last() == b.last(),
        forall|k: Seq<u8>| #[trigger] a.contains(k) ==> b.contains(k),
        a.drop_last().contains(key),
    ensures
        b.drop_last().contains(key),
{
    let i = a.drop_last().index_of(key);
    assert(a[i] == key);
    assert(a.contains(key));
    assert(precedes(a[i], a[a.len() - 1]));
    precedes_is_irreflexive(key);
    let j = b.index_of(key);
    assert(b.drop_last()[j] == key);
}

} // verus!
