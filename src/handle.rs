use vstd::prelude::*;

verus! {

/// The exclusive owner of one native resource.
///
/// The owner hands its handle out for release at most once: after the first
/// `release` the resource counts as disposed and later calls hand out nothing.
pub struct Owned {
    handle: usize,
    live: bool,
}

/// What one call of `release` hands out for disposal, given the owner's state.
pub open spec fn released_by(handle: usize, live: bool) -> Option<usize> {
    if live {
        Some(handle)
    } else {
        None
    }
}

impl Owned {
    pub closed spec fn handle_spec(&self) -> usize {
        self.handle
    }

    pub closed spec fn is_live_spec(&self) -> bool {
        self.live
    }

    /// Takes ownership of `handle`; the resource is live until released.
    pub fn new(handle: usize) -> (r: Owned)
        ensures
            r.handle_spec() == handle,
            r.is_live_spec(),
    {
        Owned { handle, live: true }
    }

    pub fn handle(&self) -> (r: usize)
        ensures
            r == self.handle_spec(),
    {
        self.handle
    }

    pub fn is_live(&self) -> (r: bool)
        ensures
            r == self.is_live_spec(),
    {
        self.live
    }

    /// Hands out the handle for disposal if the resource is still live, and
    /// marks it disposed. A second call hands out nothing.
    pub fn release(&mut self) -> (r: Option<usize>)
        ensures
            r == released_by(old(self).handle_spec(), old(self).is_live_spec()),
            final(self).handle_spec() == old(self).handle_spec(),
            !final(self).is_live_spec(),
    {
        if self.live {
            self.live = false;
            Some(self.handle)
        } else {
            None
        }
    }
}

/// Disposal happens exactly once per resource: releasing each of `n` live
/// owners of distinct handles hands out `n` handles, pairwise distinct, each
/// the handle of its own owner; and once released, an owner hands out nothing
/// more.
pub proof fn lemma_disposal_exactly_once(owners: Seq<Owned>)
    requires
        forall|i: int| 0 <= i < owners.len() ==> (#[trigger] owners[i]).is_live_spec(),
        forall|i: int, j: int|
            0 <= i < owners.len() && 0 <= j < owners.len() && i != j
                ==> owners[i].handle_spec() != owners[j].handle_spec(),
    ensures
        forall|i: int|
            0 <= i < owners.len() ==> released_by(
                (#[trigger] owners[i]).handle_spec(),
                owners[i].is_live_spec(),
            ) == Some(owners[i].handle_spec()),
        forall|i: int, j: int|
            0 <= i < owners.len() && 0 <= j < owners.len() && i != j ==> released_by(
                (#[trigger] owners[i]).handle_spec(),
                owners[i].is_live_spec(),
            ) != released_by((#[trigger] owners[j]).handle_spec(), owners[j].is_live_spec()),
        forall|i: int|
            0 <= i < owners.len() ==> released_by((#[trigger] owners[i]).handle_spec(), false)
                is None,
{
}

} // verus!
