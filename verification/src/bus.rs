//! The serial-bus abstraction the controller drives the chip through.
//!
//! The byte-level framing of the physical link (3-wire or 4-wire wiring,
//! chip-select handling) is an outside collaborator: this core consumes it as
//! an abstract frame-transfer capability, the [`ActiveBus`] trait.  A value
//! implementing it carries, as its ghost state, the sequence of register
//! frames that have been issued through it, so that contracts can pin down
//! exactly which bus traffic an operation causes.
//!
//! [`ActiveFourWire`] and [`ActiveThreeWire`] are the two wired-and-active
//! bus forms; [`FourWire`] and [`ThreeWire`] are their deactivated
//! counterparts, which retain the wiring-mode identity (and, for 4-wire, the
//! chip-select resource) after the transfer primitive has been detached and
//! handed back to the caller.

use vstd::prelude::*;

verus! {

/// One complete framed register transfer: a register address inside a block,
/// a direction, and the payload bytes that crossed the bus.
pub struct Frame {
    /// Block selector addressing one register block of the chip.
    pub block: u8,
    /// Register address inside the selected block.
    pub address: u16,
    /// True for a write to the chip, false for a read from it.
    pub is_write: bool,
    /// The payload bytes, as handed to the transfer.
    pub data: Seq<u8>,
}

/// The frame-transfer capability of a wired-and-active bus.
///
/// `transfer_log` is the ghost history of frames issued through this value;
/// a completed transfer appends exactly one frame to it, and a failed one
/// leaves it unchanged, so the log never over- or under-counts bus traffic.
pub trait ActiveBus: Sized {
    /// The transport-level fault type of the underlying link, propagated
    /// verbatim to callers and never retried.
    type Error;

    /// The frames issued through this bus so far, oldest first.
    spec fn transfer_log(&self) -> Seq<Frame>;

    /// Performs one blocking framed register transfer.
    ///
    /// On completion the payload buffer keeps its length; a write leaves it
    /// unchanged.  The frame is recorded in the log exactly when the
    /// transfer completes.
    fn transfer_frame(
        &mut self,
        block: u8,
        address: u16,
        is_write: bool,
        data: &mut Vec<u8>,
    ) -> (r: Result<(), Self::Error>)
        ensures
            final(data)@.len() == old(data)@.len(),
            is_write ==> final(data)@ == old(data)@,
            r is Ok ==> final(self).transfer_log() == old(self).transfer_log().push(
                Frame { block, address, is_write, data: old(data)@ },
            ),
            r is Err ==> final(self).transfer_log() == old(self).transfer_log(),
    ;
}

/// A 4-wire bus that is wired and active: it owns the transfer primitive and
/// the chip-select control.
pub struct ActiveFourWire<Spi: ActiveBus, ChipSelect> {
    /// The frame-transfer primitive of the link.
    pub spi: Spi,
    /// The chip-select control of the link.
    pub cs: ChipSelect,
}

/// A 4-wire bus whose transfer primitive has been detached: only the
/// chip-select resource and the wiring-mode identity remain.
pub struct FourWire<ChipSelect> {
    /// The chip-select control, retained for the next activation.
    pub cs: ChipSelect,
}

/// A 3-wire bus that is wired and active: it owns the transfer primitive.
pub struct ActiveThreeWire<Spi: ActiveBus> {
    /// The frame-transfer primitive of the link.
    pub spi: Spi,
}

/// A 3-wire bus whose transfer primitive has been detached: only the
/// wiring-mode identity remains.
pub struct ThreeWire {}

impl<Spi: ActiveBus, ChipSelect> ActiveFourWire<Spi, ChipSelect> {
    /// Activates a 4-wire bus over the given transfer primitive and
    /// chip-select control.
    pub fn new(spi: Spi, cs: ChipSelect) -> (r: Self)
        ensures
            r == (ActiveFourWire { spi, cs }),
    {
        ActiveFourWire { spi, cs }
    }

    /// Detaches the transfer primitive, returning the deactivated bus (which
    /// keeps the chip-select resource) and the primitive itself.
    pub fn deactivate(self) -> (r: (FourWire<ChipSelect>, Spi))
        ensures
            r.0 == (FourWire { cs: self.cs }),
            r.1 == self.spi,
    {
        (FourWire { cs: self.cs }, self.spi)
    }
}

impl<Spi: ActiveBus, ChipSelect> ActiveBus for ActiveFourWire<Spi, ChipSelect> {
    type Error = Spi::Error;

    open spec fn transfer_log(&self) -> Seq<Frame> {
        self.spi.transfer_log()
    }

    fn transfer_frame(
        &mut self,
        block: u8,
        address: u16,
        is_write: bool,
        data: &mut Vec<u8>,
    ) -> (r: Result<(), Self::Error>) {
        self.spi.transfer_frame(block, address, is_write, data)
    }
}

impl<ChipSelect> FourWire<ChipSelect> {
    /// Wraps a chip-select resource as a deactivated 4-wire bus.
    pub fn new(cs: ChipSelect) -> (r: Self)
        ensures
            r == (FourWire { cs }),
    {
        FourWire { cs }
    }

    /// Reattaches a transfer primitive, restoring the wired-and-active form.
    pub fn activate<Spi: ActiveBus>(self, spi: Spi) -> (r: ActiveFourWire<Spi, ChipSelect>)
        ensures
            r == (ActiveFourWire { spi, cs: self.cs }),
    {
        ActiveFourWire { spi, cs: self.cs }
    }
}

impl<Spi: ActiveBus> ActiveThreeWire<Spi> {
    /// Activates a 3-wire bus over the given transfer primitive.
    pub fn new(spi: Spi) -> (r: Self)
        ensures
            r == (ActiveThreeWire { spi }),
    {
        ActiveThreeWire { spi }
    }

    /// Detaches the transfer primitive, returning the deactivated bus and
    /// the primitive itself.
    pub fn deactivate(self) -> (r: (ThreeWire, Spi))
        ensures
            r.1 == self.spi,
    {
        (ThreeWire {}, self.spi)
    }
}

impl<Spi: ActiveBus> ActiveBus for ActiveThreeWire<Spi> {
    type Error = Spi::Error;

    open spec fn transfer_log(&self) -> Seq<Frame> {
        self.spi.transfer_log()
    }

    fn transfer_frame(
        &mut self,
        block: u8,
        address: u16,
        is_write: bool,
        data: &mut Vec<u8>,
    ) -> (r: Result<(), Self::Error>) {
        self.spi.transfer_frame(block, address, is_write, data)
    }
}

impl ThreeWire {
    /// A deactivated 3-wire bus: nothing but the wiring-mode identity.
    pub fn new() -> (r: Self) {
        ThreeWire {}
    }

    /// Reattaches a transfer primitive, restoring the wired-and-active form.
    pub fn activate<Spi: ActiveBus>(self, spi: Spi) -> (r: ActiveThreeWire<Spi>)
        ensures
            r == (ActiveThreeWire { spi }),
    {
        ActiveThreeWire { spi }
    }
}

} // verus!
