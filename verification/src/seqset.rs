use vstd::prelude::*;

verus! {

/// The entries of a sequence that differ from `b`, in their original
/// order: the sequence-level meaning of removing one value from a set
/// kept as a duplicate-free vector.
pub open spec fn remove_value<A>(s: Seq<A>, b: A) -> Seq<A>
    decreases s.len(),
{
    if s.len() == 0 {
        s
    } else if s.last() == b {
        remove_value(s.drop_last(), b)
    } else {
        remove_value(s.drop_last(), b).push(s.last())
    }
}

pub proof fn lemma_remove_value<A>(s: Seq<A>, b: A)
    ensures
        remove_value(s, b).to_set() == s.to_set().remove(b),
        s.no_duplicates() ==> remove_value(s, b).no_duplicates(),
        s.no_duplicates() && s.contains(b) ==> remove_value(s, b).len() == s.len() - 1,
        !s.contains(b) ==> remove_value(s, b) == s,
    decreases s.len(),
{
    if s.len() == 0 {
        assert(remove_value(s, b).to_set() =~= s.to_set().remove(b));
    } else {
        let d = s.drop_last();
        lemma_remove_value(d, b);
        assert forall|x: A| #[trigger] s.contains(x) implies d.contains(x) || x == s.last() by {
            let i = choose|i: int| 0 <= i < s.len() && s[i] == x;
            if i < s.len() - 1 {
                assert(d[i] == x);
            }
        }
        assert forall|x: A| #[trigger] d.contains(x) implies s.contains(x) by {
            let i = choose|i: int| 0 <= i < d.len() && d[i] == x;
            assert(s[i] == x);
        }
        assert(s.contains(s.last())) by {
            assert(s[s.len() - 1] == s.last());
        }
        if s.last() == b {
            assert(remove_value(s, b).to_set() =~= s.to_set().remove(b));
        } else {
            let r = remove_value(d, b).push(s.last());
            assert(r == remove_value(s, b));
            remove_value(d, b).lemma_push_to_set_commute(s.last());
            assert(remove_value(s, b).to_set() =~= s.to_set().remove(b));
            if s.no_duplicates() {
                assert(d.no_duplicates());
                assert(!d.contains(s.last())) by {
                    if d.contains(s.last()) {
                        let i = choose|i: int| 0 <= i < d.len() && d[i] == s.last();
                        assert(s[i] == s[s.len() - 1]);
                    }
                }
                assert(!remove_value(d, b).contains(s.last())) by {
                    if remove_value(d, b).contains(s.last()) {
                        assert(remove_value(d, b).to_set().contains(s.last()));
                        assert(d.to_set().contains(s.last()));
                    }
                }
                assert forall|i: int, j: int|
                    0 <= i < r.len() && 0 <= j < r.len() && i != j implies r[i] != r[j] by {
                    if i < r.len() - 1 && j < r.len() - 1 {
                        assert(remove_value(d, b)[i] == r[i]);
                        assert(remove_value(d, b)[j] == r[j]);
                    } else {
                        let m = if i < r.len() - 1 {
                            i
                        } else {
                            j
                        };
                        if 0 <= m < r.len() - 1 {
                            assert(remove_value(d, b)[m] == r[m]);
                            assert(remove_value(d, b).contains(remove_value(d, b)[m]));
                        }
                    }
                }
            }
            if s.no_duplicates() && s.contains(b) {
                assert(d.contains(b)) by {
                    let i = choose|i: int| 0 <= i < s.len() && s[i] == b;
                    assert(i < s.len() - 1);
                    assert(d[i] == b);
                }
            }
        }
    }
}

} // verus!
