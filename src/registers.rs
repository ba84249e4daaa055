//! A model of the camera interface's register block, as one owned handle,
//! with the ordered record of every write made through it.

use vstd::prelude::*;

verus! {

/// CR: capture enable.
pub const CR_CAPTURE: u32 = 0x0001;
/// CR: capture mode (set for snapshot).
pub const CR_CM: u32 = 0x0002;
/// CR: crop enable.
pub const CR_CROP: u32 = 0x0004;
/// CR: JPEG format.
pub const CR_JPEG: u32 = 0x0008;
/// CR: embedded synchronization select.
pub const CR_ESS: u32 = 0x0010;
/// CR: pixel clock polarity.
pub const CR_PCKPOL: u32 = 0x0020;
/// CR: horizontal sync polarity.
pub const CR_HSPOL: u32 = 0x0040;
/// CR: vertical sync polarity.
pub const CR_VSPOL: u32 = 0x0080;
/// CR: frame capture rate control, two bits.
pub const CR_FCRC: u32 = 0x0300;
/// CR: extended data mode, two bits.
pub const CR_EDM: u32 = 0x0C00;
/// CR: peripheral enable.
pub const CR_ENABLE: u32 = 0x4000;

/// One write on the bus, in the order the hardware sees it.
#[derive(Clone, Copy, Debug, PartialEq, Eq, Structural)]
pub enum BusWrite {
    /// The control register put back to its reset value, zero.
    ControlReset,
    /// A read-modify-write of the control register; the value written.
    Control(u32),
    /// The interrupt enable register overwritten with this mask.
    InterruptEnable(u32),
    /// These bits written to the write-1-to-clear interrupt clear register.
    InterruptClear(u32),
    /// The DMA stream serving the camera interface switched on.
    DmaStreamEnable,
}

/// The register block of the camera interface. Owning it is the right to
/// write its registers.
pub struct DcmiPeripheral {
    cr: u32,
    ier: u32,
    writes: Vec<BusWrite>,
}

impl DcmiPeripheral {
    /// The control register's current value.
    pub closed spec fn control_spec(&self) -> u32 {
        self.cr
    }

    /// The interrupt enable register's current value.
    pub closed spec fn interrupt_enable_spec(&self) -> u32 {
        self.ier
    }

    /// Every write made through this handle, oldest first.
    pub closed spec fn trace(&self) -> Seq<BusWrite> {
        self.writes@
    }

    /// The register block at reset: every register zero, nothing written.
    pub fn new() -> (r: Self)
        ensures
            r.control_spec() == 0,
            r.interrupt_enable_spec() == 0,
            r.trace() == Seq::<BusWrite>::empty(),
    {
        DcmiPeripheral { cr: 0, ier: 0, writes: Vec::new() }
    }

    pub fn control(&self) -> (r: u32)
        ensures
            r == self.control_spec(),
    {
        self.cr
    }

    pub fn interrupt_enable(&self) -> (r: u32)
        ensures
            r == self.interrupt_enable_spec(),
    {
        self.ier
    }

    /// The writes made so far, oldest first.
    pub fn writes(&self) -> (r: &Vec<BusWrite>)
        ensures
            r@ == self.trace(),
    {
        &self.writes
    }

    /// Puts the control register back to zero.
    pub fn reset_control(&mut self)
        ensures
            final(self).control_spec() == 0,
            final(self).interrupt_enable_spec() == old(self).interrupt_enable_spec(),
            final(self).trace() == old(self).trace().push(BusWrite::ControlReset),
    {
        self.cr = 0;
        self.writes.push(BusWrite::ControlReset);
    }

    /// One read-modify-write of the control register: the bits under `mask`
    /// take those of `value`, the others keep theirs.
    pub fn modify_control(&mut self, mask: u32, value: u32)
        requires
            value & !mask == 0,
        ensures
            final(self).control_spec() == (old(self).control_spec() & !mask) | value,
            final(self).interrupt_enable_spec() == old(self).interrupt_enable_spec(),
            final(self).trace() == old(self).trace().push(
                BusWrite::Control((old(self).control_spec() & !mask) | value),
            ),
    {
        let v = (self.cr & !mask) | value;
        self.cr = v;
        self.writes.push(BusWrite::Control(v));
    }

    /// Overwrites the interrupt enable register.
    pub fn write_interrupt_enable(&mut self, bits: u32)
        ensures
            final(self).control_spec() == old(self).control_spec(),
            final(self).interrupt_enable_spec() == bits,
            final(self).trace() == old(self).trace().push(BusWrite::InterruptEnable(bits)),
    {
        self.ier = bits;
        self.writes.push(BusWrite::InterruptEnable(bits));
    }

    /// Writes `bits` to the interrupt clear register, clearing those flags
    /// and no others.
    pub fn write_interrupt_clear(&mut self, bits: u32)
        ensures
            final(self).control_spec() == old(self).control_spec(),
            final(self).interrupt_enable_spec() == old(self).interrupt_enable_spec(),
            final(self).trace() == old(self).trace().push(BusWrite::InterruptClear(bits)),
    {
        self.writes.push(BusWrite::InterruptClear(bits));
    }

    /// Records that the DMA stream serving this peripheral was switched on.
    pub fn record_stream_enable(&mut self)
        ensures
            final(self).control_spec() == old(self).control_spec(),
            final(self).interrupt_enable_spec() == old(self).interrupt_enable_spec(),
            final(self).trace() == old(self).trace().push(BusWrite::DmaStreamEnable),
    {
        self.writes.push(BusWrite::DmaStreamEnable);
    }
}

} // verus!
