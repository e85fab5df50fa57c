//! The order of byte strings.

use vstd::prelude::*;

verus! {

/// Whether two byte strings begin with the same `k` bytes.
pub open spec fn agree(a: Seq<u8>, b: Seq<u8>, k: int) -> bool {
    &&& 0 <= k <= a.len()
    &&& k <= b.len()
    &&& forall|j: int| 0 <= j < k ==> a[j] == b[j]
}

/// Whether a byte string comes before another: it ends where the other goes on,
/// or has the smaller byte where they first differ.
pub open spec fn precedes(a: Seq<u8>, b: Seq<u8>) -> bool {
    exists|k: int| #[trigger]
        agree(a, b, k) && k < b.len() && (k == a.len() || a[k] < b[k])
}

/// Nothing comes before itself.
pub proof fn precedes_is_irreflexive(a: Seq<u8>)
    ensures
        !precedes(a, a),
{
}

/// What comes before something comes before all that follows it.
pub proof fn precedes_is_transitive(a: Seq<u8>, b: Seq<u8>, c: Seq<u8>)
    requires
        precedes(a, b),
        precedes(b, c),
    ensures
        precedes(a, c),
{
    let k = choose|k: int| #[trigger]
        agree(a, b, k) && k < b.len() && (k == a.len() || a[k] < b[k]);
    let l = choose|l: int| #[trigger]
        agree(b, c, l) && l < c.len() && (l == b.len() || b[l] < c[l]);
    let m = if k < l {
        k
    } else {
        l
    };
    assert(agree(a, c, m));
}

/// Of two byte strings that differ, one comes before the other.
pub proof fn precedes_is_total(a: Seq<u8>, b: Seq<u8>)
    ensures
        a == b || precedes(a, b) || precedes(b, a),
    decreases a.len(),
{
    first_difference(a, b, 0);
}

/// Finds the place where two byte strings first differ.
proof fn first_difference(a: Seq<u8>, b: Seq<u8>, k: int)
    requires
        agree(a, b, k),
    ensures
        a == b || precedes(a, b) || precedes(b, a),
    decreases a.len() - k,
{
    if k < a.len() && k < b.len() && a[k] == b[k] {
        first_difference(a, b, k + 1);
    } else if k == a.len() && k == b.len() {
        assert(a =~= b);
    } else {
        assert(agree(b, a, k));
    }
}

/// How one byte string lies to another.
#[derive(Debug, Clone, Copy, PartialEq, Eq)]
pub enum Place {
    /// It comes before the other.
    Before,
    /// It is the other.
    Same,
    /// It comes after the other.
    After,
}

/// How one byte string lies to another.
pub fn place_of(a: &[u8], b: &[u8]) -> (place: Place)
    ensures
        (match place {
            Place::Before => precedes(a@, b@),
            Place::Same => a@ == b@,
            Place::After => precedes(b@, a@),
        }),
{
    let mut i: usize = 0;
    while i < a.len() && i < b.len()
        invariant
            agree(a@, b@, i as int),
        decreases a@.len() - i,
    {
        if a[i] != b[i] {
            assert(agree(b@, a@, i as int));
            if a[i] < b[i] {
                return Place::Before;
            }
            return Place::After;
        }
        i = i + 1;
    }
    assert(agree(b@, a@, i as int));
    if i < b.len() {
        Place::Before
    } else if i < a.len() {
        Place::After
    } else {
        assert(a@ =~= b@);
        Place::Same
    }
}

} // verus!
