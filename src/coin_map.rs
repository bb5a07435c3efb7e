//! Per-coin tables: a vector of `(coin, value)` pairs with distinct coins,
//! viewed as a map from the coin's characters to the value.

use vstd::prelude::*;

verus! {

/// The map that a table denotes; a later entry for a coin overrides an earlier one.
pub open spec fn map_of<V>(s: Seq<(String, V)>) -> Map<Seq<char>, V>
    decreases s.len(),
{
    if s.len() == 0 {
        Map::empty()
    } else {
        map_of(s.drop_last()).insert(s.last().0@, s.last().1)
    }
}

/// No coin appears twice.
pub open spec fn unique_keys<V>(s: Seq<(String, V)>) -> bool {
    forall|i: int, j: int| 0 <= i < j < s.len() ==> s[i].0@ != s[j].0@
}

/// The entries of a table with each coin seen as its characters.
pub open spec fn table_view<V>(s: Seq<(String, V)>) -> Seq<(Seq<char>, V)> {
    s.map_values(|e: (String, V)| (e.0@, e.1))
}

/// Some entry of `t` has coin `k`.
pub open spec fn has_key<V>(t: Seq<(Seq<char>, V)>, k: Seq<char>) -> bool {
    exists|i: int| 0 <= i < t.len() && t[i].0 == k
}

/// The value of coin `k` in `t`, if any.
pub open spec fn get_spec<V>(t: Seq<(Seq<char>, V)>, k: Seq<char>) -> Option<V> {
    if has_key(t, k) {
        Some(t[choose|i: int| 0 <= i < t.len() && t[i].0 == k].1)
    } else {
        None
    }
}

/// `t` with the value of `k` set to `v`: in place if `k` is there, else at the end.
pub open spec fn upsert_spec<V>(t: Seq<(Seq<char>, V)>, k: Seq<char>, v: V) -> Seq<(Seq<char>, V)> {
    if has_key(t, k) {
        t.update(choose|i: int| 0 <= i < t.len() && t[i].0 == k, (k, v))
    } else {
        t.push((k, v))
    }
}

/// In a table with distinct coins, the entry found at `i` is the one `choose` picks.
pub proof fn lemma_unique_index<V>(s: Seq<(String, V)>, k: Seq<char>, i: int)
    requires
        unique_keys(s),
        0 <= i < s.len(),
        s[i].0@ == k,
    ensures
        has_key(table_view(s), k),
        (choose|j: int| 0 <= j < table_view(s).len() && table_view(s)[j].0 == k) == i,
        get_spec(table_view(s), k) == Some(s[i].1),
{
    let t = table_view(s);
    assert(t[i].0 == k);
    let j = choose|j: int| 0 <= j < t.len() && t[j].0 == k;
    assert(s[j].0@ == k);
    if j < i {
        assert(s[j].0@ != s[i].0@);
    } else if i < j {
        assert(s[i].0@ != s[j].0@);
    }
}

/// A coin that no entry has is not in the viewed table.
pub proof fn lemma_absent<V>(s: Seq<(String, V)>, k: Seq<char>)
    requires
        forall|i: int| 0 <= i < s.len() ==> s[i].0@ != k,
    ensures
        !has_key(table_view(s), k),
        get_spec(table_view(s), k) is None,
{
    if has_key(table_view(s), k) {
        let j = choose|j: int| 0 <= j < table_view(s).len() && table_view(s)[j].0 == k;
        assert(s[j].0@ == k);
    }
}

/// Replacing the value of an existing coin.
proof fn lemma_map_of_update<V>(s: Seq<(String, V)>, i: int, e: (String, V))
    requires
        unique_keys(s),
        0 <= i < s.len(),
        e.0@ == s[i].0@,
    ensures
        unique_keys(s.update(i, e)),
        map_of(s.update(i, e)) == map_of(s).insert(e.0@, e.1),
    decreases s.len(),
{
    let u = s.update(i, e);
    assert(unique_keys(u)) by {
        assert forall|a: int, b: int| 0 <= a < b < u.len() implies u[a].0@ != u[b].0@ by {
            assert(s[a].0@ == u[a].0@ && s[b].0@ == u[b].0@);
        }
    }
    if i == s.len() - 1 {
        assert(u.drop_last() == s.drop_last());
    } else {
        let t = s.drop_last();
        assert(unique_keys(t));
        lemma_map_of_update(t, i, e);
        assert(u.drop_last() == t.update(i, e));
        assert(s.last().0@ != e.0@);
        assert(map_of(u) =~= map_of(s).insert(e.0@, e.1));
    }
}

/// The position of `coin` in the table, if it is there.
pub fn find_coin<V>(s: &Vec<(String, V)>, coin: &String) -> (r: Option<usize>)
    ensures
        r matches Some(i) ==> i < s@.len() && s@[i as int].0@ == coin@,
        r is None ==> forall|i: int| 0 <= i < s@.len() ==> s@[i].0@ != coin@,
{
    let mut i: usize = 0;
    while i < s.len()
        invariant
            i <= s@.len(),
            forall|j: int| 0 <= j < i ==> s@[j].0@ != coin@,
        decreases s@.len() - i,
    {
        if s[i].0 == *coin {
            return Some(i);
        }
        i = i + 1;
    }
    None
}

/// The value of `coin` in the table, if it is there.
pub fn get_coin<V: Copy>(s: &Vec<(String, V)>, coin: &String) -> (r: Option<V>)
    requires
        unique_keys(s@),
    ensures
        r == get_spec(table_view(s@), coin@),
{
    match find_coin(s, coin) {
        Some(i) => {
            proof {
                lemma_unique_index(s@, coin@, i as int);
            }
            Some(s[i].1)
        },
        None => {
            proof {
                lemma_absent(s@, coin@);
            }
            None
        },
    }
}

/// Sets the value of `coin`, adding the coin at the end if it is new.
pub fn upsert<V>(s: &mut Vec<(String, V)>, coin: &String, v: V)
    requires
        unique_keys(old(s)@),
    ensures
        unique_keys(final(s)@),
        map_of(final(s)@) == map_of(old(s)@).insert(coin@, v),
        table_view(final(s)@) == upsert_spec(table_view(old(s)@), coin@, v),
{
    let k = coin.clone();
    match find_coin(s, coin) {
        Some(i) => {
            proof {
                lemma_map_of_update(s@, i as int, (k, v));
                lemma_unique_index(s@, coin@, i as int);
            }
            let ghost before = s@;
            s.set(i, (k, v));
            assert(table_view(s@) =~= table_view(before).update(i as int, (coin@, v)));
        },
        None => {
            let ghost before = s@;
            proof {
                lemma_absent(before, coin@);
            }
            s.push((k, v));
            assert(table_view(s@) =~= table_view(before).push((coin@, v)));
            proof {
                assert(s@.drop_last() == before);
                assert forall|a: int, b: int| 0 <= a < b < s@.len() implies s@[a].0@
                    != s@[b].0@ by {
                    if b == s@.len() - 1 {
                        assert(before[a].0@ != coin@);
                    } else {
                        assert(before[a] == s@[a] && before[b] == s@[b]);
                    }
                }
            }
        },
    }
}

} // verus!
