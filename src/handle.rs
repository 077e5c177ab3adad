//! Handles: references to a shape that name the registry they came from by
//! its epoch instead of holding it, and the slot that owns the one active
//! registry.
use vstd::prelude::*;

use crate::context::VelloContext;

verus! {

/// Why an operation on a shape could not be carried out.
#[derive(Clone, Copy, Debug, PartialEq, Eq, Structural)]
pub enum SceneError {
    /// The id does not name a shape of the registry.
    ShapeNotFound,
    /// The registry the handle was made for no longer exists.
    ContextGone,
}

/// A shape id together with the epoch of the registry that issued it. It
/// keeps nothing alive; every use goes through a `ContextSlot` and fails
/// cleanly when the registry is gone.
#[derive(Clone, Copy, Debug, PartialEq, Eq, Structural)]
pub struct ShapeHandle {
    id: usize,
    epoch: u64,
}

impl ShapeHandle {
    /// The index of the shape in its registry.
    pub closed spec fn id_spec(self) -> usize {
        self.id
    }

    /// The epoch of the registry that issued this handle.
    pub closed spec fn epoch_spec(self) -> u64 {
        self.epoch
    }

    pub(crate) fn issue(id: usize, epoch: u64) -> (r: ShapeHandle)
        ensures
            r.id_spec() == id,
            r.epoch_spec() == epoch,
    {
        ShapeHandle { id, epoch }
    }

    /// The index of the shape in its registry.
    pub fn id(&self) -> (r: usize)
        ensures
            r == self.id_spec(),
    {
        self.id
    }

    /// The epoch of the registry that issued this handle.
    pub fn epoch(&self) -> (r: u64)
        ensures
            r == self.epoch_spec(),
    {
        self.epoch
    }
}

/// The one active registry, if any, and the epoch the next one will get.
/// Each registry it installs gets an epoch that no earlier registry of this
/// slot had, so a handle issued by one of its registries that was torn down or
/// replaced never resolves against it again. Epochs are unique within one
/// slot only: a handle from another slot's registry resolves here when the
/// epochs happen to agree.
pub struct ContextSlot {
    active: Option<VelloContext>,
    next_epoch: u64,
}

impl ContextSlot {
    /// The active registry, if any.
    pub closed spec fn active_spec(self) -> Option<VelloContext> {
        self.active
    }

    /// The epoch the next installed registry will get.
    pub closed spec fn next_epoch_spec(self) -> u64 {
        self.next_epoch
    }

    /// The active registry is well formed, and its epoch is positive and
    /// below the next one.
    pub open spec fn wf(self) -> bool {
        &&& self.next_epoch_spec() >= 1
        &&& self.active_spec() matches Some(c) ==> c.wf() && 0 < c.epoch_spec() < self.next_epoch_spec()
    }

    /// Whether `h` was issued by the registry that is active now.
    pub open spec fn is_live(self, h: ShapeHandle) -> bool {
        self.active_spec() matches Some(c) && c.epoch_spec() == h.epoch_spec()
    }

    /// What `teardown` does: the active registry, if any, is dropped.
    pub open spec fn teardown_spec(self, next: Self) -> bool {
        &&& next.active_spec() is None
        &&& next.next_epoch_spec() == self.next_epoch_spec()
    }

    /// What a successful `install` does: a fresh, empty registry with the
    /// next epoch becomes active.
    pub open spec fn install_spec(self, next: Self, epoch: u64) -> bool {
        &&& epoch == self.next_epoch_spec()
        &&& next.next_epoch_spec() == self.next_epoch_spec() + 1
        &&& next.active_spec() matches Some(c) && c@ == Seq::<crate::shape::Shape>::empty()
            && c.selected() is None && c.anchor() == (0int, 0int) && c.epoch_spec() == epoch
    }

    /// An empty slot: no registry is active yet.
    pub fn new() -> (r: ContextSlot)
        ensures
            r.wf(),
            r.active_spec() is None,
            r.next_epoch_spec() == 1,
    {
        ContextSlot { active: None, next_epoch: 1 }
    }

    /// Replaces the active registry, if any, by a fresh empty one and returns
    /// its epoch; `None`, with nothing changed, once the epochs are used up.
    pub fn install(&mut self) -> (r: Option<u64>)
        requires
            old(self).wf(),
        ensures
            final(self).wf(),
            old(self).next_epoch_spec() < u64::MAX ==> r is Some && old(self).install_spec(
                *final(self),
                r.unwrap(),
            ),
            old(self).next_epoch_spec() == u64::MAX ==> r is None && *final(self) == *old(self),
    {
        if self.next_epoch == u64::MAX {
            return None;
        }
        let epoch = self.next_epoch;
        self.active = Some(VelloContext::with_epoch(epoch));
        self.next_epoch = epoch + 1;
        Some(epoch)
    }

    /// Drops the active registry; every handle issued so far stops resolving.
    pub fn teardown(&mut self)
        requires
            old(self).wf(),
        ensures
            final(self).wf(),
            old(self).teardown_spec(*final(self)),
    {
        self.active = None;
    }

    /// The active registry, if any.
    pub fn context(&self) -> (r: Option<&VelloContext>)
        ensures
            match r {
                Some(c) => self.active_spec() == Some(*c),
                None => self.active_spec() is None,
            },
    {
        match &self.active {
            Some(c) => Some(c),
            None => None,
        }
    }

    /// The active registry, if any, for changing it in place. The registry's
    /// own methods all keep its epoch, so handles it issued stay live.
    pub fn context_mut(&mut self) -> (r: Option<&mut VelloContext>)
        ensures
            final(self).next_epoch_spec() == old(self).next_epoch_spec(),
            match r {
                Some(c) => old(self).active_spec() == Some(*c) && final(self).active_spec() == Some(
                    *final(c),
                ),
                None => old(self).active_spec() is None && *final(self) == *old(self),
            },
    {
        match &mut self.active {
            Some(c) => Some(c),
            None => None,
        }
    }
}

/// A handle issued by the registry that was active in a slot before a teardown
/// never resolves against that slot afterwards, also once a new registry has
/// been installed there; nor does one issued by a registry that `install`
/// replaced. `follow` and `unfollow` called on such a handle fail with
/// `ContextGone` and change nothing.
pub proof fn lemma_teardown_severs(
    s0: ContextSlot,
    h: ShapeHandle,
    s1: ContextSlot,
    s2: ContextSlot,
    e2: u64,
    s3: ContextSlot,
    e3: u64,
)
    requires
        s0.wf(),
        s0.is_live(h),
        s0.teardown_spec(s1),
    ensures
        !s1.is_live(h),
        s1.install_spec(s2, e2) ==> !s2.is_live(h),
        s0.install_spec(s3, e3) ==> !s3.is_live(h),
{
}

impl ShapeHandle {
    /// Attaches this handle's shape to the shape of the active registry whose
    /// index is `other`'s id (see `VelloContext::attach`). Fails with
    /// `ContextGone` when this handle was not issued by the active registry,
    /// and with `ShapeNotFound` when either id names no shape of it; on
    /// failure nothing changes. Only this handle's registry is resolved.
    pub fn follow(&self, other: &ShapeHandle, slot: &mut ContextSlot) -> (r: Result<(), SceneError>)
        requires
            old(slot).wf(),
        ensures
            final(slot).wf(),
            !old(slot).is_live(*self) ==> r == Err::<(), SceneError>(SceneError::ContextGone)
                && *final(slot) == *old(slot),
            old(slot).is_live(*self) ==> {
                let c = old(slot).active_spec().unwrap();
                let found = self.id_spec() < c@.len() && other.id_spec() < c@.len();
                &&& found ==> r is Ok && final(slot).next_epoch_spec() == old(slot).next_epoch_spec()
                    && final(slot).active_spec() is Some && c.attach_spec(
                    self.id_spec() as int,
                    other.id_spec() as int,
                    final(slot).active_spec().unwrap(),
                )
                &&& !found ==> r == Err::<(), SceneError>(SceneError::ShapeNotFound) && *final(slot)
                    == *old(slot)
            },
    {
        match &mut slot.active {
            Some(c) => {
                if c.epoch() != self.epoch {
                    return Err(SceneError::ContextGone);
                }
                c.attach(self.id, other.id)
            },
            None => Err(SceneError::ContextGone),
        }
    }

    /// Ends the attachment of this handle's shape (see `VelloContext::detach`).
    /// Fails with `ContextGone` when the handle was not issued by the active
    /// registry, and with `ShapeNotFound` when its id names no shape; on
    /// failure nothing changes.
    pub fn unfollow(&self, slot: &mut ContextSlot) -> (r: Result<(), SceneError>)
        requires
            old(slot).wf(),
        ensures
            final(slot).wf(),
            !old(slot).is_live(*self) ==> r == Err::<(), SceneError>(SceneError::ContextGone)
                && *final(slot) == *old(slot),
            old(slot).is_live(*self) ==> {
                let c = old(slot).active_spec().unwrap();
                &&& self.id_spec() < c@.len() ==> r is Ok && final(slot).next_epoch_spec()
                    == old(slot).next_epoch_spec() && final(slot).active_spec() is Some
                    && c.detach_spec(self.id_spec() as int, final(slot).active_spec().unwrap())
                &&& self.id_spec() >= c@.len() ==> r == Err::<(), SceneError>(SceneError::ShapeNotFound)
                    && *final(slot) == *old(slot)
            },
    {
        match &mut slot.active {
            Some(c) => {
                if c.epoch() != self.epoch {
                    return Err(SceneError::ContextGone);
                }
                c.detach(self.id)
            },
            None => Err(SceneError::ContextGone),
        }
    }
}

} // verus!
