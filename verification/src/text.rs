use vstd::prelude::*;

verus! {

broadcast use vstd::std_specs::vec::group_vec_axioms;

/// A copy of a byte string.
pub fn copy_bytes(bytes: &Vec<u8>) -> (copy: Vec<u8>)
    ensures
        copy@ == bytes@,
{
    let copy = bytes.clone();
    proof {
        assert(copy.deep_view() == bytes.deep_view());
        assert(copy@ =~= bytes@);
    }
    copy
}

/// A copy of a list of byte strings.
pub fn copy_byte_lists(lists: &Vec<Vec<u8>>) -> (copy: Vec<Vec<u8>>)
    ensures
        copy.deep_view() == lists.deep_view(),
{
    let mut copy: Vec<Vec<u8>> = Vec::new();
    let mut i: usize = 0;
    while i < lists.len()
        invariant
            i <= lists.len(),
            copy.len() == i,
            forall|j: int| 0 <= j < i ==> (#[trigger] copy@[j])@ == lists@[j]@,
        decreases lists.len() - i,
    {
        copy.push(copy_bytes(&lists[i]));
        i += 1;
    }
    assert(copy.deep_view() =~= lists.deep_view());
    copy
}

} // verus!
