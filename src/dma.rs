//! The continuous peripheral-to-memory DMA transfer that carries captured
//! words from the camera interface into a destination buffer.

use vstd::prelude::*;
use crate::registers::{BusWrite, DcmiPeripheral};

verus! {

/// A continuous DMA transfer bound to its destination buffer, which it owns.
pub struct Transfer {
    buffer: Vec<u32>,
    enabled: bool,
}

impl Transfer {
    /// Whether the DMA stream is running.
    pub closed spec fn is_enabled_spec(&self) -> bool {
        self.enabled
    }

    /// The destination buffer.
    pub closed spec fn buffer_spec(&self) -> Seq<u32> {
        self.buffer@
    }

    /// A transfer into `buffer`, not yet running.
    pub fn new(buffer: Vec<u32>) -> (r: Self)
        ensures
            !r.is_enabled_spec(),
            r.buffer_spec() == buffer@,
    {
        Transfer { buffer, enabled: false }
    }

    pub fn is_enabled(&self) -> (r: bool)
        ensures
            r == self.is_enabled_spec(),
    {
        self.enabled
    }

    pub fn buffer(&self) -> (r: &Vec<u32>)
        ensures
            r@ == self.buffer_spec(),
    {
        &self.buffer
    }

    /// Switches the stream on, as the last step of arming the transfer for
    /// `periph`: whatever `periph` must be set to first has been written.
    pub fn start_stream(&mut self, periph: &mut DcmiPeripheral)
        ensures
            final(self).is_enabled_spec(),
            final(self).buffer_spec() == old(self).buffer_spec(),
            final(periph).control_spec() == old(periph).control_spec(),
            final(periph).interrupt_enable_spec() == old(periph).interrupt_enable_spec(),
            final(periph).trace() == old(periph).trace().push(BusWrite::DmaStreamEnable),
    {
        periph.record_stream_enable();
        self.enabled = true;
    }
}

} // verus!
