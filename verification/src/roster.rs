//! The bounded list of device identifiers, kept in a `heapless::Vec`.
//!
//! Verus does not look inside that vector. What it holds is named by
//! `roster_ids`, and each method that the library calls has a wrapper here
//! whose contract is taken on trust from the vector's source.

use vstd::prelude::*;

verus! {

/// Largest number of devices that can be attached at once.
pub const MAX_DEVICES: usize = 3;

/// Stable identifier of a device.
pub type Uuid = [u8; 6];

/// The vector that holds a device list.
pub type Roster = heapless::Vec<[u8; 6], MAX_DEVICES>;

/// What pushing onto a roster returns: nothing, or the item that did not fit.
pub type Pushed = Result<(), [u8; 6]>;

/// `heapless::Vec`: a vector of at most `N` items that lives without an
/// allocator. The verifier sees nothing inside it.
#[verifier::external_type_specification]
#[verifier::external_body]
#[verifier::reject_recursive_types(T)]
pub struct ExHeaplessVec<T, const N: usize>(heapless::Vec<T, N>);

/// The identifiers that a roster holds, first to last.
pub uninterp spec fn roster_ids(v: heapless::Vec<[u8; 6], MAX_DEVICES>) -> Seq<[u8; 6]>;

/// `heapless::Vec::new`: a vector that holds nothing.
#[verifier::external_body]
pub(crate) fn roster_new() -> (v: heapless::Vec<[u8; 6], MAX_DEVICES>)
    ensures
        roster_ids(v) == Seq::<[u8; 6]>::empty(),
{
    heapless::Vec::new()
}

/// `heapless::Vec::as_slice`: the items in order, never more of them than
/// the capacity.
#[verifier::external_body]
pub(crate) fn roster_as_slice(v: &heapless::Vec<[u8; 6], MAX_DEVICES>) -> (s: &[[u8; 6]])
    ensures
        s@ == roster_ids(*v),
        s@.len() <= MAX_DEVICES,
{
    v.as_slice()
}

/// `heapless::Vec::push`: below capacity the item is appended; at capacity
/// the vector is left as it is and the item is handed back. It never panics.
#[verifier::external_body]
pub(crate) fn roster_push(v: &mut heapless::Vec<[u8; 6], MAX_DEVICES>, id: [u8; 6]) -> (r: Pushed)
    ensures
        r is Ok <==> roster_ids(*old(v)).len() < MAX_DEVICES,
        r is Ok ==> roster_ids(*final(v)) == roster_ids(*old(v)).push(id),
        r is Err ==> r == Pushed::Err(id) && roster_ids(*final(v)) == roster_ids(*old(v)),
    no_unwind
{
    v.push(id)
}

/// `heapless::Vec::remove`: takes out the item at `index`, which is returned,
/// and moves the later items down by one. It panics on an index out of
/// bounds, which the precondition excludes, and on nothing else.
#[verifier::external_body]
pub(crate) fn roster_remove(v: &mut heapless::Vec<[u8; 6], MAX_DEVICES>, index: usize) -> (r: Uuid)
    requires
        index < roster_ids(*old(v)).len(),
    ensures
        r == roster_ids(*old(v))[index as int],
        roster_ids(*final(v)) == roster_ids(*old(v)).remove(index as int),
    no_unwind
{
    v.remove(index)
}

/// `Clone::clone` of `heapless::Vec`: a vector with the same items in the
/// same order.
#[verifier::external_body]
pub(crate) fn roster_clone(v: &heapless::Vec<[u8; 6], MAX_DEVICES>) -> (c: Roster)
    ensures
        roster_ids(c) == roster_ids(*v),
{
    v.clone()
}

/// Whether two identifiers are the same.
pub fn same_uuid(a: &Uuid, b: &Uuid) -> (r: bool)
    ensures
        r == (*a == *b),
{
    let mut i: usize = 0;
    while i < 6
        invariant
            i <= 6,
            forall|k: int| 0 <= k < i ==> a@[k] == b@[k],
        decreases 6 - i,
    {
        if a[i] != b[i] {
            return false;
        }
        i += 1;
    }
    assert(*a =~= *b);
    true
}

/// The place of `id` in a list of identifiers, if it is there.
pub fn find_uuid(ids: &[Uuid], id: &Uuid) -> (r: Option<usize>)
    ensures
        match r {
            Some(i) => i < ids@.len() && ids@[i as int] == *id,
            None => !ids@.contains(*id),
        },
{
    let mut i: usize = 0;
    while i < ids.len()
        invariant
            i <= ids@.len(),
            forall|k: int| 0 <= k < i ==> ids@[k] != *id,
        decreases ids@.len() - i,
    {
        if same_uuid(&ids[i], id) {
            return Some(i);
        }
        i += 1;
    }
    None
}

} // verus!
