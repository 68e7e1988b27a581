//! Records kept as a sequence of (address, record) entries, read as a map in
//! which a later entry stands over an earlier one with the same address.
use vstd::prelude::*;

verus! {

/// The map that a sequence of entries stands for.
pub open spec fn entries_map<R>(s: Seq<([u8; 32], R)>) -> Map<Seq<u8>, R>
    decreases s.len(),
{
    if s.len() == 0 {
        Map::empty()
    } else {
        entries_map(s.drop_last()).insert(s.last().0@, s.last().1)
    }
}

/// Appending an entry inserts it into the map.
pub proof fn lemma_entries_push<R>(s: Seq<([u8; 32], R)>, e: ([u8; 32], R))
    ensures
        entries_map(s.push(e)) == entries_map(s).insert(e.0@, e.1),
{
    assert(s.push(e).drop_last() =~= s);
}

/// The last entry with an address gives that address's record.
pub proof fn lemma_entries_found<R>(s: Seq<([u8; 32], R)>, a: Seq<u8>, i: int)
    requires
        0 <= i < s.len(),
        s[i].0@ == a,
        forall|j: int| i < j < s.len() ==> s[j].0@ != a,
    ensures
        entries_map(s).contains_key(a),
        entries_map(s)[a] == s[i].1,
    decreases s.len(),
{
    if i < s.len() - 1 {
        let t = s.drop_last();
        assert forall|j: int| i < j < t.len() implies t[j].0@ != a by {
            assert(t[j] == s[j]);
        }
        lemma_entries_found(t, a, i);
    }
}

/// An address that no entry holds is not in the map.
pub proof fn lemma_entries_absent<R>(s: Seq<([u8; 32], R)>, a: Seq<u8>)
    requires
        forall|j: int| 0 <= j < s.len() ==> s[j].0@ != a,
    ensures
        !entries_map(s).contains_key(a),
    decreases s.len(),
{
    if s.len() > 0 {
        let t = s.drop_last();
        assert forall|j: int| 0 <= j < t.len() implies t[j].0@ != a by {
            assert(t[j] == s[j]);
        }
        lemma_entries_absent(t, a);
    }
}

} // verus!
