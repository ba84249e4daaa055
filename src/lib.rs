//! Hardware abstraction for a parallel camera interface (DCMI): pin bundles
//! checked by capability traits, a capture configuration builder, a capture
//! engine driving a model of the peripheral's registers, and the
//! peripheral clock-enable/reset table of the clock controller.

pub mod config;
pub mod registers;
pub mod dma;
pub mod pins;
pub mod rcc;
pub mod dcmi;
