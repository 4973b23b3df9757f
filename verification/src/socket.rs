//! The eight hardware socket slots and the tokens that grant access to them.
//!
//! [`OwnedSockets`] is the slot registry: exactly eight slots, numbered 0
//! through 7, owned exclusively by the active controller.  Slots are never
//! created or destroyed, only borrowed — and because they are eight disjoint
//! fields, each can be mutably borrowed independently of the others.
//!
//! A [`SocketHandle`] is a caller-held token naming one of the eight slots
//! and carrying the identity of the registry it was allocated from.  The
//! [`Socket`] trait is the provenance capability this core consumes: before
//! any socket is opened, the handle must prove it belongs to *this*
//! controller's registry.

use vstd::prelude::*;

verus! {

/// One of the eight hardware socket engines inside the chip, identified by
/// its slot number.
pub struct SocketSlot {
    pub(crate) index: u8,
}

impl SocketSlot {
    /// The slot number of this engine.
    pub closed spec fn index(&self) -> u8 {
        self.index
    }

    /// Returns the slot number of this engine.
    pub fn number(&self) -> (i: u8)
        ensures
            i == self.index(),
    {
        self.index
    }
}

/// The eight slots of a registry, each mutably borrowed on its own: because
/// they are disjoint fields, the eight borrows can be held and used
/// independently within the same scope.
pub type Sockets<'a> = (
    &'a mut SocketSlot,
    &'a mut SocketSlot,
    &'a mut SocketSlot,
    &'a mut SocketSlot,
    &'a mut SocketSlot,
    &'a mut SocketSlot,
    &'a mut SocketSlot,
    &'a mut SocketSlot,
);

/// The registry of the chip's eight socket slots, stamped with the identity
/// under which its handles are allocated.
pub struct OwnedSockets {
    pub(crate) id: u64,
    pub(crate) slot0: SocketSlot,
    pub(crate) slot1: SocketSlot,
    pub(crate) slot2: SocketSlot,
    pub(crate) slot3: SocketSlot,
    pub(crate) slot4: SocketSlot,
    pub(crate) slot5: SocketSlot,
    pub(crate) slot6: SocketSlot,
    pub(crate) slot7: SocketSlot,
}

impl OwnedSockets {
    /// The identity this registry stamps on the handles allocated from it.
    pub closed spec fn id(&self) -> u64 {
        self.id
    }

    /// The slot with the given number, as one accessor over all eight
    /// fields.
    pub closed spec fn slot(&self, i: int) -> SocketSlot {
        if i == 0 {
            self.slot0
        } else if i == 1 {
            self.slot1
        } else if i == 2 {
            self.slot2
        } else if i == 3 {
            self.slot3
        } else if i == 4 {
            self.slot4
        } else if i == 5 {
            self.slot5
        } else if i == 6 {
            self.slot6
        } else {
            self.slot7
        }
    }

    /// The registry is well-formed when each of its eight slots carries its
    /// own slot number.
    pub open spec fn wf(&self) -> bool {
        forall|i: int| 0 <= i < 8 ==> #[trigger] self.slot(i).index() == i
    }

    /// Builds the registry of the chip's eight socket slots under the given
    /// allocation identity.
    pub fn new(id: u64) -> (r: OwnedSockets)
        ensures
            r.id() == id,
            r.wf(),
    {
        let r = OwnedSockets {
            id,
            slot0: SocketSlot { index: 0 },
            slot1: SocketSlot { index: 1 },
            slot2: SocketSlot { index: 2 },
            slot3: SocketSlot { index: 3 },
            slot4: SocketSlot { index: 4 },
            slot5: SocketSlot { index: 5 },
            slot6: SocketSlot { index: 6 },
            slot7: SocketSlot { index: 7 },
        };
        r
    }

    /// Returns the identity this registry stamps on its handles.
    pub fn registry_id(&self) -> (i: u64)
        ensures
            i == self.id(),
    {
        self.id
    }

    /// Allocates a handle for the slot with the given number, stamped with
    /// this registry's identity.
    pub fn handle(&self, index: u8) -> (h: SocketHandle)
        requires
            index < 8,
        ensures
            h.owner_id() == self.id(),
            h.slot_index() == index,
    {
        SocketHandle { owner: self.id, index }
    }

    /// Borrows all eight slots at once, in slot order: eight disjoint
    /// mutable borrows that the caller may hold and use independently.  The
    /// registry's identity is untouched, whatever the caller does with the
    /// borrows.
    pub fn borrow_slots<'a>(&'a mut self) -> (r: Sockets<'a>)
        ensures
            *r.0 == old(self).slot(0),
            *r.1 == old(self).slot(1),
            *r.2 == old(self).slot(2),
            *r.3 == old(self).slot(3),
            *r.4 == old(self).slot(4),
            *r.5 == old(self).slot(5),
            *r.6 == old(self).slot(6),
            *r.7 == old(self).slot(7),
            final(self).id() == old(self).id(),
            final(self).slot(0) == *final(r.0),
            final(self).slot(1) == *final(r.1),
            final(self).slot(2) == *final(r.2),
            final(self).slot(3) == *final(r.3),
            final(self).slot(4) == *final(r.4),
            final(self).slot(5) == *final(r.5),
            final(self).slot(6) == *final(r.6),
            final(self).slot(7) == *final(r.7),
    {
        (
            &mut self.slot0,
            &mut self.slot1,
            &mut self.slot2,
            &mut self.slot3,
            &mut self.slot4,
            &mut self.slot5,
            &mut self.slot6,
            &mut self.slot7,
        )
    }
}

/// The provenance capability of a caller-held socket token: it names one of
/// the eight slots and can say which registry it was allocated from.
pub trait Socket: Sized {
    /// The identity of the registry this token was allocated from.
    spec fn owner_id(&self) -> u64;

    /// The number of the slot this token names.
    spec fn slot_index(&self) -> u8;

    /// Checks whether this token was allocated from the given registry.
    fn is_owned_by(&self, sockets: &OwnedSockets) -> (b: bool)
        ensures
            b == (self.owner_id() == sockets.id()),
    ;

    /// Returns the number of the slot this token names.
    fn index(&self) -> (i: u8)
        ensures
            i == self.slot_index(),
    ;
}

/// A caller-held token for one socket slot, allocated from a registry by
/// [`OwnedSockets::handle`] and stamped with that registry's identity.
pub struct SocketHandle {
    pub(crate) owner: u64,
    pub(crate) index: u8,
}

impl Socket for SocketHandle {
    closed spec fn owner_id(&self) -> u64 {
        self.owner
    }

    closed spec fn slot_index(&self) -> u8 {
        self.index
    }

    fn is_owned_by(&self, sockets: &OwnedSockets) -> (b: bool) {
        self.owner == sockets.id
    }

    fn index(&self) -> (i: u8) {
        self.index
    }
}

} // verus!
