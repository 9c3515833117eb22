//! Keeping a device-side buffer in step with a host-side list.
//!
//! A [`BufferSync`] owns the host-side list, which is the truth, and a dirty
//! flag. The device-side buffer stays with the caller, who reports whether
//! its handle is usable and carries out the upload that a flush orders. An
//! upload always takes the whole list.
//!
//! The synchronizer also keeps, as ghost state, the list that the device
//! holds once every ordered upload has been carried out. While the flag is
//! clear the two lists are equal.

use vstd::prelude::*;
use rand::seq::SliceRandom;
use crate::error::DeviceError;

verus! {

/// Whether the device-side buffer can take an upload.
#[derive(Clone, Copy, Debug, PartialEq, Eq, Structural)]
pub enum DeviceStatus {
    /// The handle is allocated and its context is alive.
    Ready,
    /// The handle is unallocated or its context is lost.
    Lost,
}

/// What the caller has to do after a flush.
#[derive(Clone, Copy, Debug, PartialEq, Eq, Structural)]
pub enum FlushAction {
    /// Nothing: the device already holds the list.
    Skip,
    /// Copy the whole list to the device.
    Upload,
}

/// The result of a flush on a synchronizer whose flag is `dirty`.
pub open spec fn flush_outcome(dirty: bool, device: DeviceStatus) -> Result<
    FlushAction,
    DeviceError,
> {
    if !dirty {
        Ok(FlushAction::Skip)
    } else if device == DeviceStatus::Ready {
        Ok(FlushAction::Upload)
    } else {
        Err(DeviceError::InvalidHandle)
    }
}

/// The flag after a flush on a synchronizer whose flag was `dirty`.
pub open spec fn dirty_after_flush(dirty: bool, device: DeviceStatus) -> bool {
    dirty && device == DeviceStatus::Lost
}

/// The number of uploads that a flush with this result orders.
pub open spec fn uploads(outcome: Result<FlushAction, DeviceError>) -> nat {
    if outcome == Ok::<FlushAction, DeviceError>(FlushAction::Upload) {
        1
    } else {
        0
    }
}

/// Flushing is idempotent: after a flush that did not fail, another flush
/// orders nothing and changes nothing, whatever the device's state. The two
/// together order one upload if the list was dirty and none if it was not.
pub proof fn lemma_second_flush_skips(dirty: bool, first: DeviceStatus, second: DeviceStatus)
    requires
        flush_outcome(dirty, first) is Ok,
    ensures
        !dirty_after_flush(dirty, first),
        flush_outcome(dirty_after_flush(dirty, first), second) == Ok::<FlushAction, DeviceError>(
            FlushAction::Skip,
        ),
        dirty_after_flush(dirty_after_flush(dirty, first), second) == dirty_after_flush(
            dirty,
            first,
        ),
        uploads(flush_outcome(dirty, first)) + uploads(
            flush_outcome(dirty_after_flush(dirty, first), second),
        ) == (if dirty {
            1nat
        } else {
            0nat
        }),
{
}

/// A failed flush loses nothing: the flag stays set, and the next flush on a
/// usable device orders the upload.
pub proof fn lemma_failed_flush_retries(dirty: bool, first: DeviceStatus)
    requires
        flush_outcome(dirty, first) is Err,
    ensures
        dirty,
        first == DeviceStatus::Lost,
        dirty_after_flush(dirty, first),
        flush_outcome(dirty_after_flush(dirty, first), DeviceStatus::Ready) == Ok::<
            FlushAction,
            DeviceError,
        >(FlushAction::Upload),
{
}

/// A rearranged list names the same items: if every entry of `before` is
/// below `bound`, so is every entry of a permutation of it.
pub proof fn lemma_permutation_keeps_bound(before: Seq<u16>, after: Seq<u16>, bound: nat)
    requires
        before.to_multiset() == after.to_multiset(),
        forall|i: int| 0 <= i < before.len() ==> (#[trigger] before[i]) < bound,
    ensures
        after.len() == before.len(),
        forall|i: int| 0 <= i < after.len() ==> (#[trigger] after[i]) < bound,
{
    before.to_multiset_ensures();
    after.to_multiset_ensures();
    assert forall|i: int| 0 <= i < after.len() implies (#[trigger] after[i]) < bound by {
        let x = after[i];
        assert(after.contains(x));
        assert(after.to_multiset().count(x) > 0);
        assert(before.contains(x));
        let j = choose|j: int| 0 <= j < before.len() && before[j] == x;
        assert(before[j] < bound);
    }
}

/// `rand::seq::SliceRandom::shuffle` on the items of `items`, with the
/// generator that `rand::thread_rng` returns. The call only swaps items in
/// place, so the list afterwards is a rearrangement of the list before;
/// which one is left open. The generator is seeded from the operating system
/// when a thread first uses it, and `rand` gives up if the system has no
/// entropy to offer.
#[verifier::external_body]
fn shuffle_in_place<T>(items: &mut Vec<T>)
    ensures
        final(items)@.len() == old(items)@.len(),
        final(items)@.to_multiset() == old(items)@.to_multiset(),
{
    items.shuffle(&mut rand::thread_rng());
}

/// A host-side list with the flag that says whether the device is behind.
pub struct BufferSync<T> {
    data: Vec<T>,
    dirty: bool,
    mirror: Ghost<Option<Seq<T>>>,
}

impl<T> BufferSync<T> {
    #[verifier::type_invariant]
    spec fn clean_means_equal(&self) -> bool {
        !self.dirty ==> self.mirror@ == Some(self.data@)
    }

    /// The host-side list.
    pub closed spec fn contents(&self) -> Seq<T> {
        self.data@
    }

    /// Whether the list changed, or was marked, since the last upload.
    pub closed spec fn dirty(&self) -> bool {
        self.dirty
    }

    /// What the device holds once every ordered upload is carried out;
    /// `None` before the first one.
    pub closed spec fn device_contents(&self) -> Option<Seq<T>> {
        self.mirror@
    }

    /// `self` is what a flush with the device in state `device` makes of
    /// `before`: the host-side list is the same; if the flush orders an
    /// upload the flag is clear and the device holds the list; if not, flag
    /// and device are as before.
    pub open spec fn flushed_from(&self, before: &Self, device: DeviceStatus) -> bool {
        &&& self.contents() == before.contents()
        &&& self.dirty() == dirty_after_flush(before.dirty(), device)
        &&& self.device_contents() == (if uploads(flush_outcome(before.dirty(), device)) == 1 {
            Some(before.contents())
        } else {
            before.device_contents()
        })
    }

    /// Takes `data` as the host-side list. Nothing is uploaded yet, so the
    /// list is dirty.
    pub fn new(data: Vec<T>) -> (sync: Self)
        ensures
            sync.contents() == data@,
            sync.dirty(),
            sync.device_contents() is None,
    {
        BufferSync { data, dirty: true, mirror: Ghost(None) }
    }

    /// The host-side list, for reading and for the upload.
    pub fn data(&self) -> (data: &Vec<T>)
        ensures
            data@ == self.contents(),
    {
        &self.data
    }

    /// The length of the host-side list.
    pub fn len(&self) -> (len: usize)
        ensures
            len == self.contents().len(),
    {
        self.data.len()
    }

    /// Whether the next flush will order an upload. While this is false,
    /// the device holds the host-side list.
    pub fn is_dirty(&self) -> (dirty: bool)
        ensures
            dirty == self.dirty(),
            !dirty ==> self.device_contents() == Some(self.contents()),
    {
        proof {
            use_type_invariant(self);
        }
        self.dirty
    }

    /// Sets the flag, so that the next flush uploads the list again.
    pub fn mark_dirty(&mut self)
        ensures
            final(self).dirty(),
            final(self).contents() == old(self).contents(),
            final(self).device_contents() == old(self).device_contents(),
    {
        self.dirty = true;
    }

    /// Replaces the whole host-side list by `data` and sets the flag.
    pub fn replace(&mut self, data: Vec<T>)
        ensures
            final(self).dirty(),
            final(self).contents() == data@,
            final(self).device_contents() == old(self).device_contents(),
    {
        self.dirty = true;
        self.data = data;
    }

    /// Rearranges the host-side list at random and sets the flag. The list
    /// keeps its items, each as often as before.
    pub fn shuffle(&mut self)
        ensures
            final(self).dirty(),
            final(self).contents().len() == old(self).contents().len(),
            final(self).contents().to_multiset() == old(self).contents().to_multiset(),
            final(self).device_contents() == old(self).device_contents(),
    {
        self.dirty = true;
        let mut items: Vec<T> = Vec::new();
        std::mem::swap(&mut self.data, &mut items);
        shuffle_in_place(&mut items);
        self.data = items;
    }

    /// Brings the device up to date if it is behind.
    ///
    /// With the flag clear this orders nothing, whatever the device's state.
    /// With the flag set and the device ready it orders the upload of the
    /// whole list and clears the flag. With the flag set and the device lost
    /// it fails and leaves the flag set, so that a later flush tries again.
    /// The host-side list is never changed.
    pub fn flush_if_dirty(&mut self, device: DeviceStatus) -> (r: Result<FlushAction, DeviceError>)
        ensures
            r == flush_outcome(old(self).dirty(), device),
            final(self).flushed_from(old(self), device),
    {
        if !self.dirty {
            return Ok(FlushAction::Skip);
        }
        match device {
            DeviceStatus::Lost => Err(DeviceError::InvalidHandle),
            DeviceStatus::Ready => {
                self.mirror = Ghost(Some(self.data@));
                self.dirty = false;
                Ok(FlushAction::Upload)
            },
        }
    }
}

} // verus!
