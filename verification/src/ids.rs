use vstd::prelude::*;
use vstd::set_lib::*;

verus! {

/// The id that an in-memory store hands to the record it creates while it
/// holds `count` records: one more than the count, cut to 32 bits as the
/// store computes it.
pub open spec fn next_id(count: nat) -> i32 {
    (count + 1) as i32
}

/// A map keyed by `i32` holds at most 2^32 keys.
pub proof fn lemma_i32_keys_bound<V>(m: Map<i32, V>)
    requires
        m.dom().finite(),
    ensures
        m.dom().len() <= 0x1_0000_0000,
{
    let all = Set::<i32>::range_inclusive(i32::MIN, i32::MAX);
    <i32 as FiniteRange>::range_properties(i32::MIN, i32::MAX);
    assert(m.dom().subset_of(all)) by {
        assert forall|k: i32| m.dom().contains(k) implies all.contains(k) by {
            if k != i32::MAX {
                assert(Set::<i32>::range(i32::MIN, i32::MAX).contains(k));
            }
        }
    }
    lemma_len_subset(m.dom(), all);
}

/// The id for the record that comes after `count` records: `count + 1` cut to 32 bits.
pub(crate) fn id_after(count: usize) -> (id: i32)
    requires
        count <= 0x1_0000_0000,
    ensures
        id == next_id(count as nat),
{
    let wide: u64 = count as u64 + 1;
    wide as i32
}

/// A sequence with the values of a map whose keys are the ids of their values,
/// as many as the map has keys, lists each entry of the map once.
pub proof fn lemma_values_listed_once<V>(s: Seq<V>, m: Map<i32, V>, id_of: spec_fn(V) -> i32)
    requires
        m.dom().finite(),
        forall|k: i32| #[trigger] m.contains_key(k) ==> id_of(m[k]) == k,
        s.to_set() == m.values(),
        s.len() == m.len(),
    ensures
        forall|i: int| 0 <= i < s.len() ==> m.contains_key(id_of(#[trigger] s[i])) && m[id_of(s[i])] == s[i],
        forall|i: int, j: int| 0 <= i < j < s.len() ==> id_of(#[trigger] s[i]) != id_of(#[trigger] s[j]),
        forall|k: i32| #[trigger] m.contains_key(k) ==> exists|i: int| 0 <= i < s.len() && id_of(#[trigger] s[i]) == k,
{
    assert forall|i: int| 0 <= i < s.len() implies m.contains_key(id_of(#[trigger] s[i])) && m[id_of(s[i])] == s[i] by {
        assert(s.to_set().contains(s[i]));
        assert(m.values().contains(s[i]));
        let k = choose|k: i32| m.contains_key(k) && m[k] == s[i];
        assert(id_of(m[k]) == k);
    }
    assert forall|k: i32| #[trigger] m.contains_key(k) implies exists|i: int| 0 <= i < s.len() && id_of(#[trigger] s[i]) == k by {
        assert(m.values().contains(m[k]));
        assert(s.to_set().contains(m[k]));
        assert(s.contains(m[k]));
        let i = choose|i: int| 0 <= i < s.len() && s[i] == m[k];
        assert(id_of(s[i]) == k);
    }
    let ids = s.map_values(id_of);
    assert(ids.to_set() =~= m.dom()) by {
        assert forall|k: i32| ids.to_set().contains(k) implies m.dom().contains(k) by {
            let i = choose|i: int| 0 <= i < ids.len() && ids[i] == k;
            assert(m.contains_key(id_of(s[i])));
        }
        assert forall|k: i32| m.dom().contains(k) implies ids.to_set().contains(k) by {
            let i = choose|i: int| 0 <= i < s.len() && id_of(#[trigger] s[i]) == k;
            assert(ids[i] == k);
        }
    }
    ids.lemma_no_dup_set_cardinality();
    assert forall|i: int, j: int| 0 <= i < j < s.len() implies id_of(#[trigger] s[i]) != id_of(#[trigger] s[j]) by {
        assert(ids[i] == id_of(s[i]));
        assert(ids[j] == id_of(s[j]));
    }
}

} // verus!
