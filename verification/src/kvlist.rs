//! Association lists of strings: a `Vec<(String, String)>` whose keys are
//! distinct, viewed as a finite map.
use vstd::prelude::*;

verus! {

/// The view of one key/value pair of strings.
pub open spec fn pair_view(p: (String, String)) -> (Seq<char>, Seq<char>) {
    (p.0@, p.1@)
}

/// The view of a list of string pairs.
pub open spec fn pairs_view(v: Seq<(String, String)>) -> Seq<(Seq<char>, Seq<char>)> {
    v.map_values(|p: (String, String)| pair_view(p))
}

/// No key occurs twice in the list.
pub open spec fn keys_distinct(s: Seq<(Seq<char>, Seq<char>)>) -> bool {
    forall|i: int, j: int| 0 <= i < s.len() && 0 <= j < s.len() && i != j ==> s[i].0 != s[j].0
}

/// The map that a list of pairs denotes (a later pair wins over an earlier one).
pub open spec fn kv_map(s: Seq<(Seq<char>, Seq<char>)>) -> Map<Seq<char>, Seq<char>>
    decreases s.len(),
{
    if s.len() == 0 {
        Map::empty()
    } else {
        kv_map(s.drop_last()).insert(s.last().0, s.last().1)
    }
}

/// The keys of the map are exactly the keys that occur in the list.
pub proof fn lemma_kv_map_dom(s: Seq<(Seq<char>, Seq<char>)>, k: Seq<char>)
    ensures
        kv_map(s).contains_key(k) <==> exists|i: int| 0 <= i < s.len() && s[i].0 == k,
    decreases s.len(),
{
    if s.len() > 0 {
        lemma_kv_map_dom(s.drop_last(), k);
        if kv_map(s.drop_last()).contains_key(k) {
            let i = choose|i: int| 0 <= i < s.drop_last().len() && s.drop_last()[i].0 == k;
            assert(s[i].0 == k);
        }
        if exists|i: int| 0 <= i < s.len() && s[i].0 == k {
            let i = choose|i: int| 0 <= i < s.len() && s[i].0 == k;
            if i < s.len() - 1 {
                assert(s.drop_last()[i].0 == k);
            }
        }
    }
}

/// With distinct keys, the value of a key is the value of its pair.
pub proof fn lemma_kv_map_value(s: Seq<(Seq<char>, Seq<char>)>, i: int)
    requires
        keys_distinct(s),
        0 <= i < s.len(),
    ensures
        kv_map(s).contains_key(s[i].0),
        kv_map(s)[s[i].0] == s[i].1,
    decreases s.len(),
{
    if i < s.len() - 1 {
        let t = s.drop_last();
        assert(keys_distinct(t));
        assert(t[i] == s[i]);
        lemma_kv_map_value(t, i);
        assert(s[i].0 != s.last().0);
    }
}

/// Replacing the value of the pair at `i` updates the map at that key.
pub proof fn lemma_kv_map_update(s: Seq<(Seq<char>, Seq<char>)>, i: int, v: Seq<char>)
    requires
        keys_distinct(s),
        0 <= i < s.len(),
    ensures
        keys_distinct(s.update(i, (s[i].0, v))),
        kv_map(s.update(i, (s[i].0, v))) == kv_map(s).insert(s[i].0, v),
    decreases s.len(),
{
    let u = s.update(i, (s[i].0, v));
    assert(keys_distinct(u));
    if i == s.len() - 1 {
        assert(u.drop_last() =~= s.drop_last());
        let t = s.drop_last();
        assert(keys_distinct(t));
        assert(!kv_map(t).contains_key(s[i].0)) by {
            lemma_kv_map_dom(t, s[i].0);
        }
        assert(kv_map(u) =~= kv_map(s).insert(s[i].0, v));
    } else {
        let t = s.drop_last();
        assert(keys_distinct(t));
        assert(t[i] == s[i]);
        lemma_kv_map_update(t, i, v);
        assert(u.drop_last() =~= t.update(i, (t[i].0, v)));
        assert(s.last().0 != s[i].0);
        assert(kv_map(u) =~= kv_map(s).insert(s[i].0, v));
    }
}

/// Appending a pair whose key is new inserts it into the map.
pub proof fn lemma_kv_map_push(s: Seq<(Seq<char>, Seq<char>)>, k: Seq<char>, v: Seq<char>)
    requires
        keys_distinct(s),
        !kv_map(s).contains_key(k),
    ensures
        keys_distinct(s.push((k, v))),
        kv_map(s.push((k, v))) == kv_map(s).insert(k, v),
{
    let u = s.push((k, v));
    assert(u.drop_last() =~= s);
    assert forall|i: int, j: int|
        0 <= i < u.len() && 0 <= j < u.len() && i != j implies u[i].0 != u[j].0 by {
        if i == s.len() {
            lemma_kv_map_dom(s, k);
            assert(s[j].0 != k);
        } else if j == s.len() {
            lemma_kv_map_dom(s, k);
            assert(s[i].0 != k);
        }
    }
}

/// Index of the pair with key `key`, if there is one.
pub fn find_key(v: &Vec<(String, String)>, key: &str) -> (r: Option<usize>)
    ensures
        match r {
            Some(i) => i < v.len() && v@[i as int].0@ == key@,
            None => forall|i: int| 0 <= i < v.len() ==> v@[i].0@ != key@,
        },
{
    let k = key.to_owned();
    let mut i: usize = 0;
    while i < v.len()
        invariant
            i <= v.len(),
            k@ == key@,
            forall|j: int| 0 <= j < i ==> v@[j].0@ != key@,
        decreases v.len() - i,
    {
        if v[i].0 == k {
            return Some(i);
        }
        i = i + 1;
    }
    None
}

} // verus!
