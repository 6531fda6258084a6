//! Finite sets kept as sequences without repeated elements.

use vstd::prelude::*;

verus! {

/// Appending an element that is not there yet adds it to the set and keeps the
/// sequence free of repetitions.
pub proof fn lemma_push_fresh<A>(s: Seq<A>, x: A)
    requires
        s.no_duplicates(),
        !s.contains(x),
    ensures
        s.push(x).to_set() == s.to_set().insert(x),
        s.push(x).no_duplicates(),
{
    let t = s.push(x);
    assert forall|a: A| t.to_set().contains(a) <==> s.to_set().insert(x).contains(a) by {
        if t.contains(a) {
            let k: int = choose|k: int| 0 <= k < t.len() && t[k] == a;
            if k < s.len() {
                assert(s[k] == a);
            }
        }
        if s.contains(a) {
            let k: int = choose|k: int| 0 <= k < s.len() && s[k] == a;
            assert(t[k] == a);
        }
        if a == x {
            assert(t[s.len() as int] == x);
        }
    }
    assert(t.to_set() =~= s.to_set().insert(x));
    assert forall|i: int, j: int| 0 <= i < t.len() && 0 <= j < t.len() && i != j implies t[i]
        != t[j] by {
        if i < s.len() && j < s.len() {
        } else if i < s.len() {
            assert(s.contains(s[i]));
        } else {
            assert(s.contains(s[j]));
        }
    }
}

/// Removing the element at `i` from a sequence without repetitions removes
/// that element from the set and keeps the sequence free of repetitions.
pub proof fn lemma_remove_distinct<A>(s: Seq<A>, i: int)
    requires
        s.no_duplicates(),
        0 <= i < s.len(),
    ensures
        s.remove(i).to_set() == s.to_set().remove(s[i]),
        s.remove(i).no_duplicates(),
{
    let t = s.remove(i);
    assert forall|a: A| t.to_set().contains(a) <==> s.to_set().remove(s[i]).contains(a) by {
        if t.contains(a) {
            let k: int = choose|k: int| 0 <= k < t.len() && t[k] == a;
            if k < i {
                assert(s[k] == a);
            } else {
                assert(s[k + 1] == a);
            }
        }
        if s.contains(a) && a != s[i] {
            let k: int = choose|k: int| 0 <= k < s.len() && s[k] == a;
            if k < i {
                assert(t[k] == a);
            } else {
                assert(k != i);
                assert(t[k - 1] == a);
            }
        }
    }
    assert(t.to_set() =~= s.to_set().remove(s[i]));
    assert forall|p: int, q: int| 0 <= p < t.len() && 0 <= q < t.len() && p != q implies t[p]
        != t[q] by {
        let sp: int = if p < i {
            p
        } else {
            p + 1
        };
        let sq: int = if q < i {
            q
        } else {
            q + 1
        };
        assert(t[p] == s[sp] && t[q] == s[sq]);
    }
}

} // verus!
