//! The keys of an ordered map, in the order in which the map walks them.

use std::collections::BTreeMap;
use vstd::prelude::*;
use vstd::std_specs::btree::{increasing_seq, spec_keys_iter};
use vstd::std_specs::cmp::OrdSpec;
use vstd::std_specs::iter::IteratorSpec;

verus! {

/// Whether each element of `ks` is smaller than those after it.
pub open spec fn increasing(ks: Seq<u32>) -> bool {
    forall|i: int, j: int| 0 <= i < j < ks.len() ==> ks[i] < ks[j]
}

/// Whether `ks` lists exactly the keys of `m`, smallest first.
pub open spec fn lists_keys<V>(ks: Seq<u32>, m: Map<u32, V>) -> bool {
    &&& increasing(ks)
    &&& forall|k: u32| m.contains_key(k) <==> ks.contains(k)
}

/// Where `ks` lists the keys of `m`, nothing between two neighbours of `ks`
/// is a key, nor anything before the first or after the last: `q` lies
/// after the element before place `j`, if there is one, and before the
/// element at place `j`, if there is one.
pub proof fn lemma_no_key_between<V>(ks: Seq<u32>, m: Map<u32, V>, j: int, q: u32)
    requires
        lists_keys(ks, m),
        0 <= j <= ks.len(),
        j > 0 ==> ks[j - 1] < q,
        j < ks.len() ==> q < ks[j],
    ensures
        !m.contains_key(q),
{
    if m.contains_key(q) {
        assert(ks.contains(q));
    }
}

proof fn lemma_increasing_refs(refs: Seq<&u32>)
    requires
        increasing_seq(refs),
    ensures
        forall|i: int, j: int| 0 <= i < j < refs.len() ==> *refs[i] < *refs[j],
{
    assert forall|i: int, j: int| 0 <= i < j < refs.len() implies *refs[i] < *refs[j] by {
        let a: &u32 = refs[i];
        let b: &u32 = refs[j];
        assert(OrdSpec::cmp_spec(&a, &b) is Less);
    }
}

/// The keys of `m`, smallest first.
pub fn keys_of<V>(m: &BTreeMap<u32, V>) -> (ks: Vec<u32>)
    ensures
        lists_keys(ks@, m@),
{
    let mut ks: Vec<u32> = Vec::new();
    for k in it: m.keys()
        invariant
            it.seq() == spec_keys_iter(m).remaining(),
            ks@ == it.seq().take(it.index()).map_values(|r: &u32| *r),
    {
        ks.push(*k);
    }
    let ghost refs = spec_keys_iter(m).remaining();
    assert(ks@ =~= refs.unref());
    proof {
        lemma_increasing_refs(refs);
    }
    ks
}

} // verus!
