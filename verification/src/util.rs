//! Small verified helpers over vectors of strings and of string pairs.
//!
//! The on-disk document stores its mappings with unique keys and no
//! meaningful order, so the library models a mapping as a vector of pairs and
//! a set of strings as a vector, with the predicates below giving them their
//! set-level meaning.

use vstd::prelude::*;

verus! {

/// Whether the sequence of strings holds `x`.
pub open spec fn str_seq_contains(q: Seq<Seq<char>>, x: Seq<char>) -> bool {
    exists|i: int| 0 <= i < q.len() && q[i] == x
}

/// Whether the sequence of strings holds no string twice.
pub open spec fn no_dup_strs(q: Seq<Seq<char>>) -> bool {
    forall|i: int, j: int| 0 <= i < j < q.len() ==> q[i] != q[j]
}

/// Whether no key occurs twice in a sequence of pairs.
pub open spec fn unique_keys<V>(m: Seq<(Seq<char>, V)>) -> bool {
    forall|i: int, j: int| 0 <= i < j < m.len() ==> m[i].0 != m[j].0
}

/// Whether the vector of strings holds `x`.
pub fn contains_string(v: &Vec<String>, x: &String) -> (r: bool)
    ensures
        r == str_seq_contains(v.deep_view(), x@),
{
    let n = v.len();
    for i in 0..n
        invariant
            n == v.len(),
            forall|j: int| 0 <= j < i ==> v.deep_view()[j] != x@,
    {
        if v[i] == *x {
            assert(v.deep_view()[i as int] == x@);
            return true;
        }
    }
    false
}

/// Appends `x` unless it is already present, so that the vector keeps set
/// semantics: no duplicates, and afterwards it holds exactly the old strings
/// plus `x`.
pub fn insert_string(v: &mut Vec<String>, x: &String)
    ensures
        final(v).deep_view().to_set() == old(v).deep_view().to_set().insert(x@),
        no_dup_strs(old(v).deep_view()) ==> no_dup_strs(final(v).deep_view()),
{
    if !contains_string(v, x) {
        let ghost pre = v.deep_view();
        v.push(x.clone());
        proof {
            assert(v.deep_view() =~= pre.push(x@));
            assert forall|y: Seq<char>| pre.push(x@).contains(y) <==> (pre.contains(y) || y
                == x@) by {
                if pre.push(x@).contains(y) {
                    let i = choose|i: int| 0 <= i < pre.push(x@).len() && pre.push(x@)[i] == y;
                    if i < pre.len() {
                        assert(pre.contains(y));
                    }
                }
                if pre.contains(y) {
                    let i = choose|i: int| 0 <= i < pre.len() && pre[i] == y;
                    assert(pre.push(x@)[i] == y);
                }
                if y == x@ {
                    assert(pre.push(x@)[pre.len() as int] == y);
                }
            }
            assert forall|y: Seq<char>|
                v.deep_view().to_set().contains(y) == pre.to_set().insert(x@).contains(y) by {
                assert(v.deep_view().to_set().contains(y) == pre.push(x@).contains(y));
                assert(pre.to_set().insert(x@).contains(y) == (pre.contains(y) || y == x@));
            }
            assert(v.deep_view().to_set() =~= pre.to_set().insert(x@));
        }
    } else {
        proof {
            assert(old(v).deep_view().contains(x@)) by {
                let i = choose|i: int|
                    0 <= i < old(v).deep_view().len() && old(v).deep_view()[i] == x@;
                assert(old(v).deep_view()[i] == x@);
            }
            assert(v.deep_view().to_set() =~= old(v).deep_view().to_set().insert(x@));
        }
    }
}

/// Copies a vector of strings.
pub fn clone_strings(v: &Vec<String>) -> (r: Vec<String>)
    ensures
        r.deep_view() == v.deep_view(),
        r@ == v@,
{
    let mut r: Vec<String> = Vec::new();
    let n = v.len();
    for i in 0..n
        invariant
            n == v.len(),
            r@ =~= v@.take(i as int),
    {
        r.push(v[i].clone());
        proof {
            assert(r@ =~= v@.take(i + 1));
        }
    }
    proof {
        assert(v@.take(n as int) =~= v@);
        assert(r.deep_view() =~= v.deep_view());
    }
    r
}

/// Copies a vector of string pairs.
pub fn clone_string_pairs(v: &Vec<(String, String)>) -> (r: Vec<(String, String)>)
    ensures
        r.deep_view() == v.deep_view(),
        r@ == v@,
{
    let mut r: Vec<(String, String)> = Vec::new();
    let n = v.len();
    for i in 0..n
        invariant
            n == v.len(),
            r@ =~= v@.take(i as int),
    {
        let p = &v[i];
        r.push((p.0.clone(), p.1.clone()));
        proof {
            assert(r@ =~= v@.take(i + 1));
        }
    }
    proof {
        assert(v@.take(n as int) =~= v@);
        assert(r.deep_view() =~= v.deep_view());
    }
    r
}

} // verus!
