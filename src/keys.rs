use vstd::prelude::*;
use crate::types::Pubkey;

verus! {

broadcast use vstd::seq_lib::group_seq_properties;

/// The list with every occurrence of `k` taken out, order kept.
pub open spec fn without_key(s: Seq<Pubkey>, k: Pubkey) -> Seq<Pubkey> {
    s.filter(other_than(k))
}

pub open spec fn other_than(k: Pubkey) -> spec_fn(Pubkey) -> bool {
    |x: Pubkey| x != k
}

/// The list with `k` appended unless it is already there.
pub open spec fn with_key(s: Seq<Pubkey>, k: Pubkey) -> Seq<Pubkey> {
    if s.contains(k) {
        s
    } else {
        s.push(k)
    }
}

/// An allow-list admits `k` when it is empty or holds `k`.
pub open spec fn list_permits(s: Seq<Pubkey>, k: Pubkey) -> bool {
    s.len() == 0 || s.contains(k)
}

pub fn contains_key(v: &Vec<Pubkey>, k: &Pubkey) -> (r: bool)
    ensures
        r == v@.contains(*k),
{
    let mut i: usize = 0;
    while i < v.len()
        invariant
            0 <= i <= v.len(),
            forall|j: int| 0 <= j < i ==> v@[j] != *k,
        decreases v.len() - i,
    {
        if v[i] == *k {
            return true;
        }
        i = i + 1;
    }
    false
}

pub fn list_admits(v: &Vec<Pubkey>, k: &Pubkey) -> (r: bool)
    ensures
        r == list_permits(v@, *k),
{
    v.len() == 0 || contains_key(v, k)
}

pub proof fn lemma_push_no_duplicates(s: Seq<Pubkey>, k: Pubkey)
    requires
        s.no_duplicates(),
        !s.contains(k),
    ensures
        s.push(k).no_duplicates(),
{
    let t = s.push(k);
    assert forall|i: int, j: int| 0 <= i < t.len() && 0 <= j < t.len() && i != j implies t[i]
        != t[j] by {
        if i < s.len() && j < s.len() {
        } else if i == s.len() {
            assert(s.contains(t[j]));
        } else {
            assert(s.contains(t[i]));
        }
    }
}

pub proof fn lemma_with_key_no_duplicates(s: Seq<Pubkey>, k: Pubkey)
    requires
        s.no_duplicates(),
    ensures
        with_key(s, k).no_duplicates(),
        with_key(s, k).contains(k),
        forall|x: Pubkey| #[trigger] with_key(s, k).contains(x) <==> (s.contains(x) || x == k),
{
    if !s.contains(k) {
        lemma_push_no_duplicates(s, k);
        assert(s.push(k)[s.len() as int] == k);
    }
}

pub proof fn lemma_without_key(s: Seq<Pubkey>, k: Pubkey)
    ensures
        s.no_duplicates() ==> without_key(s, k).no_duplicates(),
        forall|x: Pubkey| #[trigger] without_key(s, k).contains(x) <==> (s.contains(x) && x != k),
        !s.contains(k) ==> without_key(s, k) == s,
    decreases s.len(),
{
    reveal(Seq::filter);
    if s.len() > 0 {
        let p = s.drop_last();
        lemma_without_key(p, k);
        assert(s =~= p.push(s.last()));
        assert forall|x: Pubkey| #[trigger] s.contains(x) <==> (p.contains(x) || x == s.last()) by {
            if s.contains(x) {
                let i = choose|i: int| 0 <= i < s.len() && s[i] == x;
                if i < p.len() {
                    assert(p[i] == x);
                }
            }
            if p.contains(x) {
                let i = choose|i: int| 0 <= i < p.len() && p[i] == x;
                assert(s[i] == x);
            }
        }
        if s.no_duplicates() {
            assert(p.no_duplicates()) by {
                assert forall|i: int, j: int| 0 <= i < p.len() && 0 <= j < p.len() && i != j implies p[i]
                    != p[j] by {
                    assert(s[i] == p[i] && s[j] == p[j]);
                }
            }
            assert(!p.contains(s.last())) by {
                if p.contains(s.last()) {
                    let i = choose|i: int| 0 <= i < p.len() && p[i] == s.last();
                    assert(s[i] == s[s.len() - 1]);
                }
            }
        }
        if s.no_duplicates() && s.last() != k {
            lemma_push_no_duplicates(without_key(p, k), s.last());
        }
        if !s.contains(k) {
            assert(!p.contains(k));
        }
    }
}

/// Appends `k` to `v` unless it is already present.
pub fn insert_key(v: &mut Vec<Pubkey>, k: &Pubkey)
    ensures
        final(v)@ == with_key(old(v)@, *k),
{
    if !contains_key(v, k) {
        v.push(*k);
    }
}

/// Removes every occurrence of `k` from `v`, keeping the order of the rest.
pub fn remove_key(v: &mut Vec<Pubkey>, k: &Pubkey)
    ensures
        final(v)@ == without_key(old(v)@, *k),
{
    let mut kept: Vec<Pubkey> = Vec::new();
    let mut i: usize = 0;
    while i < v.len()
        invariant
            0 <= i <= v.len(),
            v@ == old(v)@,
            kept@ == without_key(v@.subrange(0, i as int), *k),
        decreases v.len() - i,
    {
        let x = v[i];
        proof {
            assert(v@.subrange(0, i + 1) =~= v@.subrange(0, i as int).push(x));
            v@.subrange(0, i as int).lemma_filter_push(x, other_than(*k));
        }
        if x != *k {
            kept.push(x);
        }
        i = i + 1;
    }
    proof {
        assert(v@.subrange(0, v@.len() as int) =~= v@);
    }
    *v = kept;
}

} // verus!
