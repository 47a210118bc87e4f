//! The token-record store: a duplicate-free association vector from
//! token identifier bytes to [`TokenData`], viewed as a mathematical
//! map. A record exists under an identifier exactly while that token is
//! live.

use vstd::prelude::*;

use crate::structs::{TokenData, TokenDataView};

verus! {

broadcast use vstd::set::group_set_axioms, vstd::map::group_map_axioms;

/// One stored record together with the identifier it lives under.
#[derive(Debug)]
pub struct TokenEntry {
    pub token_id: Vec<u8>,
    pub data: TokenData,
}

/// True when no two entries share an identifier.
pub open spec fn unique_ids(s: Seq<TokenEntry>) -> bool {
    forall|i: int, j: int| 0 <= i < j < s.len() ==> s[i].token_id@ != s[j].token_id@
}

/// The map from identifier bytes to record values that `s` represents.
pub open spec fn details_map(s: Seq<TokenEntry>) -> Map<Seq<u8>, TokenDataView>
    decreases s.len(),
{
    if s.len() == 0 {
        Map::empty()
    } else {
        details_map(s.drop_last()).insert(s.last().token_id@, s.last().data@)
    }
}

/// The map holds a key exactly when some entry carries it.
pub proof fn lemma_details_map_contains(s: Seq<TokenEntry>, k: Seq<u8>)
    ensures
        details_map(s).contains_key(k) <==> exists|i: int| 0 <= i < s.len() && s[i].token_id@ == k,
    decreases s.len(),
{
    if s.len() > 0 {
        lemma_details_map_contains(s.drop_last(), k);
        if s.last().token_id@ == k {
            assert(s[s.len() - 1].token_id@ == k);
        } else {
            if details_map(s).contains_key(k) {
                let i = choose|i: int|
                    0 <= i < s.drop_last().len() && s.drop_last()[i].token_id@ == k;
                assert(s[i].token_id@ == k);
            }
            if exists|i: int| 0 <= i < s.len() && s[i].token_id@ == k {
                let i = choose|i: int| 0 <= i < s.len() && s[i].token_id@ == k;
                assert(i != s.len() - 1);
                assert(s.drop_last()[i].token_id@ == k);
            }
        }
    }
}

/// In a duplicate-free store, the map sends each entry's identifier to
/// that entry's record value.
pub proof fn lemma_details_map_value(s: Seq<TokenEntry>, i: int)
    requires
        unique_ids(s),
        0 <= i < s.len(),
    ensures
        details_map(s).contains_key(s[i].token_id@),
        details_map(s)[s[i].token_id@] == s[i].data@,
    decreases s.len(),
{
    if i == s.len() - 1 {
    } else {
        assert(s.drop_last()[i] == s[i]);
        lemma_details_map_value(s.drop_last(), i);
        assert(s.last().token_id@ != s[i].token_id@);
    }
}

/// Appending an entry inserts its identifier into the map.
pub proof fn lemma_details_map_push(s: Seq<TokenEntry>, e: TokenEntry)
    ensures
        details_map(s.push(e)) == details_map(s).insert(e.token_id@, e.data@),
{
    assert(s.push(e).drop_last() =~= s);
    assert(s.push(e).last() == e);
}

/// Two stores whose entries agree value-wise represent the same map.
pub proof fn lemma_details_map_congruent(a: Seq<TokenEntry>, b: Seq<TokenEntry>)
    requires
        a.len() == b.len(),
        forall|i: int|
            0 <= i < a.len() ==> a[i].token_id@ == b[i].token_id@ && a[i].data@ == b[i].data@,
    ensures
        details_map(a) == details_map(b),
    decreases a.len(),
{
    if a.len() > 0 {
        assert(forall|i: int|
            0 <= i < a.drop_last().len() ==> a.drop_last()[i].token_id@
                == b.drop_last()[i].token_id@ && a.drop_last()[i].data@ == b.drop_last()[i].data@);
        lemma_details_map_congruent(a.drop_last(), b.drop_last());
        assert(a.last() == a[a.len() - 1]);
        assert(b.last() == b[a.len() - 1]);
    }
}

/// Replacing the entry at `i` by one under the same identifier updates
/// the map at that identifier and keeps the store duplicate-free.
pub proof fn lemma_details_map_update(s: Seq<TokenEntry>, i: int, e: TokenEntry)
    requires
        unique_ids(s),
        0 <= i < s.len(),
        e.token_id@ == s[i].token_id@,
    ensures
        unique_ids(s.update(i, e)),
        details_map(s.update(i, e)) == details_map(s).insert(e.token_id@, e.data@),
{
    let t = s.update(i, e);
    assert forall|k: Seq<u8>|
        details_map(t).contains_key(k) <==> details_map(s).insert(
            e.token_id@,
            e.data@,
        ).contains_key(k) by {
        lemma_details_map_contains(t, k);
        lemma_details_map_contains(s, k);
        if exists|j: int| 0 <= j < t.len() && t[j].token_id@ == k {
            let j = choose|j: int| 0 <= j < t.len() && t[j].token_id@ == k;
            assert(s[j].token_id@ == k);
        }
        if exists|j: int| 0 <= j < s.len() && s[j].token_id@ == k {
            let j = choose|j: int| 0 <= j < s.len() && s[j].token_id@ == k;
            assert(t[j].token_id@ == k);
        }
    }
    assert forall|j: int, l: int| 0 <= j < l < t.len() implies t[j].token_id@ != t[l].token_id@ by {
        assert(s[j].token_id@ == t[j].token_id@);
        assert(s[l].token_id@ == t[l].token_id@);
    }
    assert forall|k: Seq<u8>| details_map(t).contains_key(k) implies details_map(t)[k]
        == details_map(s).insert(e.token_id@, e.data@)[k] by {
        lemma_details_map_contains(t, k);
        let j = choose|j: int| 0 <= j < t.len() && t[j].token_id@ == k;
        lemma_details_map_value(t, j);
        if k == e.token_id@ {
            assert(j == i);
        } else {
            assert(j != i);
            assert(t[j] == s[j]);
            lemma_details_map_value(s, j);
        }
    }
    assert(details_map(t) =~= details_map(s).insert(e.token_id@, e.data@));
}

/// Taking the entry at `i` out removes its identifier from the map and
/// keeps the store duplicate-free.
pub proof fn lemma_details_map_remove(s: Seq<TokenEntry>, i: int)
    requires
        unique_ids(s),
        0 <= i < s.len(),
    ensures
        unique_ids(s.remove(i)),
        details_map(s.remove(i)) == details_map(s).remove(s[i].token_id@),
{
    s.remove_ensures(i);
    let t = s.remove(i);
    assert forall|j: int, l: int| 0 <= j < l < t.len() implies t[j].token_id@ != t[l].token_id@ by {
        let j2: int = if j < i {
            j
        } else {
            j + 1
        };
        let l2: int = if l < i {
            l
        } else {
            l + 1
        };
        assert(t[j] == s[j2]);
        assert(t[l] == s[l2]);
    }
    assert forall|k: Seq<u8>|
        details_map(t).contains_key(k) <==> details_map(s).remove(s[i].token_id@).contains_key(
            k,
        ) by {
        lemma_details_map_contains(t, k);
        lemma_details_map_contains(s, k);
        if exists|j: int| 0 <= j < t.len() && t[j].token_id@ == k {
            let j = choose|j: int| 0 <= j < t.len() && t[j].token_id@ == k;
            if j < i {
                assert(s[j].token_id@ == k);
                assert(s[j].token_id@ != s[i].token_id@);
            } else {
                assert(s[j + 1].token_id@ == k);
                assert(s[j + 1].token_id@ != s[i].token_id@);
            }
        }
        if (exists|j: int| 0 <= j < s.len() && s[j].token_id@ == k) && k != s[i].token_id@ {
            let j = choose|j: int| 0 <= j < s.len() && s[j].token_id@ == k;
            assert(j != i);
            if j < i {
                assert(t[j].token_id@ == k);
            } else {
                assert(t[j - 1] == s[j]);
            }
        }
    }
    assert forall|k: Seq<u8>| details_map(t).contains_key(k) implies details_map(t)[k]
        == details_map(s).remove(s[i].token_id@)[k] by {
        lemma_details_map_contains(t, k);
        let j = choose|j: int| 0 <= j < t.len() && t[j].token_id@ == k;
        lemma_details_map_value(t, j);
        let j2: int = if j < i {
            j
        } else {
            j + 1
        };
        assert(t[j] == s[j2]);
        lemma_details_map_value(s, j2);
    }
    assert(details_map(t) =~= details_map(s).remove(s[i].token_id@));
}

/// True when `a` and `b` hold the same bytes.
pub fn bytes_eq(a: &Vec<u8>, b: &Vec<u8>) -> (r: bool)
    ensures
        r == (a@ == b@),
{
    if a.len() != b.len() {
        return false;
    }
    let mut i: usize = 0;
    while i < a.len()
        invariant
            i <= a@.len(),
            a@.len() == b@.len(),
            forall|j: int| 0 <= j < i ==> a@[j] == b@[j],
        decreases a@.len() - i,
    {
        if a[i] != b[i] {
            return false;
        }
        i += 1;
    }
    proof {
        assert(a@ =~= b@);
    }
    true
}

/// A fresh vector holding the same bytes as `v`.
pub fn clone_bytes(v: &Vec<u8>) -> (r: Vec<u8>)
    ensures
        r@ == v@,
{
    let mut r: Vec<u8> = Vec::new();
    let mut i: usize = 0;
    while i < v.len()
        invariant
            i <= v@.len(),
            r@ == v@.subrange(0, i as int),
        decreases v@.len() - i,
    {
        r.push(v[i]);
        proof {
            assert(v@.subrange(0, i as int).push(v@[i as int]) =~= v@.subrange(0, i as int + 1));
        }
        i += 1;
    }
    proof {
        assert(v@.subrange(0, v@.len() as int) =~= v@);
    }
    r
}

/// A fresh record holding the same values as `d`.
pub fn clone_token_data(d: &TokenData) -> (r: TokenData)
    ensures
        r@ == d@,
{
    TokenData {
        owner: d.owner,
        expiry: d.expiry,
        grace: d.grace,
        domain: clone_bytes(&d.domain),
        royalty: d.royalty,
    }
}

/// A fresh store representing the same map as `v`.
pub fn clone_entries(v: &Vec<TokenEntry>) -> (r: Vec<TokenEntry>)
    ensures
        r@.len() == v@.len(),
        forall|i: int|
            0 <= i < v@.len() ==> r@[i].token_id@ == v@[i].token_id@ && r@[i].data@ == v@[i].data@,
        unique_ids(v@) ==> unique_ids(r@),
        details_map(r@) == details_map(v@),
{
    let mut r: Vec<TokenEntry> = Vec::new();
    let mut i: usize = 0;
    while i < v.len()
        invariant
            i <= v@.len(),
            r@.len() == i,
            forall|j: int|
                0 <= j < i ==> r@[j].token_id@ == v@[j].token_id@ && r@[j].data@ == v@[j].data@,
        decreases v@.len() - i,
    {
        let entry = TokenEntry {
            token_id: clone_bytes(&v[i].token_id),
            data: clone_token_data(&v[i].data),
        };
        r.push(entry);
        i += 1;
    }
    proof {
        lemma_details_map_congruent(r@, v@);
    }
    r
}

/// The index of the entry under `id`, if one exists.
pub fn find_token(v: &Vec<TokenEntry>, id: &Vec<u8>) -> (r: Option<usize>)
    ensures
        match r {
            Some(i) => i < v@.len() && v@[i as int].token_id@ == id@,
            None => !details_map(v@).contains_key(id@),
        },
{
    let mut i: usize = 0;
    while i < v.len()
        invariant
            i <= v@.len(),
            forall|j: int| 0 <= j < i ==> v@[j].token_id@ != id@,
        decreases v@.len() - i,
    {
        if bytes_eq(&v[i].token_id, id) {
            return Some(i);
        }
        i += 1;
    }
    proof {
        lemma_details_map_contains(v@, id@);
    }
    None
}

} // verus!
