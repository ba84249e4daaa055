//! Capture configuration: the builder, its option enums and their register
//! encodings, and the interrupt kinds.

use vstd::prelude::*;

verus! {

/// Interrupt sources of the camera interface.
#[derive(Clone, Copy, Debug, PartialEq, Eq, Structural)]
pub enum DcmiInterrupt {
    /// Indicates the end of line.
    Line,
    /// Indicates the end of frame capture.
    Frame,
    /// Indicates the overrun of data reception.
    Overrun,
    /// Indicates the synchronization frame.
    VSync,
    /// Indicates an error in the embedded synchronization frame detection.
    Error,
    /// All interrupts.
    All,
}

/// The bit pattern of an interrupt kind in the interrupt enable, status and
/// clear registers.
pub open spec fn interrupt_bits(i: DcmiInterrupt) -> u8 {
    match i {
        DcmiInterrupt::Line => 0x10,
        DcmiInterrupt::VSync => 0x08,
        DcmiInterrupt::Error => 0x04,
        DcmiInterrupt::Overrun => 0x02,
        DcmiInterrupt::Frame => 0x01,
        DcmiInterrupt::All => 0x1F,
    }
}

impl DcmiInterrupt {
    /// The register bit pattern of this interrupt kind.
    pub fn bits(self) -> (r: u8)
        ensures
            r == interrupt_bits(self),
    {
        match self {
            DcmiInterrupt::Line => 0b0001_0000,
            DcmiInterrupt::VSync => 0b1000,
            DcmiInterrupt::Error => 0b0100,
            DcmiInterrupt::Overrun => 0b0010,
            DcmiInterrupt::Frame => 0b0001,
            DcmiInterrupt::All => 0b0001_1111,
        }
    }
}

/// The EDM field code of a bus width.
pub open spec fn data_mode_code(m: ExtendedDataMode) -> u8 {
    match m {
        ExtendedDataMode::Bit8 => 0,
        ExtendedDataMode::Bit10 => 1,
        ExtendedDataMode::Bit12 => 2,
        ExtendedDataMode::Bit14 => 3,
    }
}

/// The FCRC field code of a frame selection.
pub open spec fn frame_control_code(f: FrameRateCaptureControl) -> u8 {
    match f {
        FrameRateCaptureControl::All => 0,
        FrameRateCaptureControl::EverySecond => 1,
        FrameRateCaptureControl::EveryFourth => 2,
    }
}

/// A sync polarity bit is set when the signal is active high.
pub open spec fn polarity_bit(p: Polarity) -> bool {
    p is ActiveHigh
}

/// The pixel clock polarity bit is set for sampling on the rising edge.
pub open spec fn pixel_clock_bit(p: PixelClockPolarity) -> bool {
    p is RisingEdge
}

/// The capture mode bit is set for snapshot (single frame) capture.
pub open spec fn capture_mode_bit(m: CaptureMode) -> bool {
    m is Snapshot
}

/// Width of the parallel data bus.
#[derive(Clone, Copy, Debug, PartialEq, Eq, Structural)]
pub enum ExtendedDataMode {
    Bit8,
    Bit10,
    Bit12,
    Bit14,
}

impl From<ExtendedDataMode> for u8 {
    /// The two-bit EDM field code.
    fn from(m: ExtendedDataMode) -> u8 {
        match m {
            ExtendedDataMode::Bit8 => 0b00,
            ExtendedDataMode::Bit10 => 0b01,
            ExtendedDataMode::Bit12 => 0b10,
            ExtendedDataMode::Bit14 => 0b11,
        }
    }
}

impl vstd::std_specs::convert::FromSpecImpl<ExtendedDataMode> for u8 {
    open spec fn obeys_from_spec() -> bool {
        true
    }

    open spec fn from_spec(m: ExtendedDataMode) -> u8 {
        data_mode_code(m)
    }
}

/// Which frames are captured.
#[derive(Clone, Copy, Debug, PartialEq, Eq, Structural)]
pub enum FrameRateCaptureControl {
    All,
    EverySecond,
    EveryFourth,
}

impl From<FrameRateCaptureControl> for u8 {
    /// The two-bit FCRC field code.
    fn from(f: FrameRateCaptureControl) -> u8 {
        match f {
            FrameRateCaptureControl::All => 0b00,
            FrameRateCaptureControl::EverySecond => 0b01,
            FrameRateCaptureControl::EveryFourth => 0b10,
        }
    }
}

impl vstd::std_specs::convert::FromSpecImpl<FrameRateCaptureControl> for u8 {
    open spec fn obeys_from_spec() -> bool {
        true
    }

    open spec fn from_spec(f: FrameRateCaptureControl) -> u8 {
        frame_control_code(f)
    }
}

/// Level at which a synchronization signal is active.
#[derive(Clone, Copy, Debug, PartialEq, Eq, Structural)]
pub enum Polarity {
    ActiveHigh,
    ActiveLow,
}

impl From<Polarity> for bool {
    fn from(p: Polarity) -> bool {
        match p {
            Polarity::ActiveHigh => true,
            Polarity::ActiveLow => false,
        }
    }
}

impl vstd::std_specs::convert::FromSpecImpl<Polarity> for bool {
    open spec fn obeys_from_spec() -> bool {
        true
    }

    open spec fn from_spec(p: Polarity) -> bool {
        polarity_bit(p)
    }
}

/// Edge of the pixel clock on which data is sampled.
#[derive(Clone, Copy, Debug, PartialEq, Eq, Structural)]
pub enum PixelClockPolarity {
    FallingEdge,
    RisingEdge,
}

impl From<PixelClockPolarity> for bool {
    fn from(p: PixelClockPolarity) -> bool {
        match p {
            PixelClockPolarity::RisingEdge => true,
            PixelClockPolarity::FallingEdge => false,
        }
    }
}

impl vstd::std_specs::convert::FromSpecImpl<PixelClockPolarity> for bool {
    open spec fn obeys_from_spec() -> bool {
        true
    }

    open spec fn from_spec(p: PixelClockPolarity) -> bool {
        pixel_clock_bit(p)
    }
}

/// Continuous capture, or a single frame.
#[derive(Clone, Copy, Debug, PartialEq, Eq, Structural)]
pub enum CaptureMode {
    Continuous,
    Snapshot,
}

impl From<CaptureMode> for bool {
    fn from(m: CaptureMode) -> bool {
        match m {
            CaptureMode::Snapshot => true,
            CaptureMode::Continuous => false,
        }
    }
}

impl vstd::std_specs::convert::FromSpecImpl<CaptureMode> for bool {
    open spec fn obeys_from_spec() -> bool {
        true
    }

    open spec fn from_spec(m: CaptureMode) -> bool {
        capture_mode_bit(m)
    }
}

/// Configuration of the camera interface, built from `default()` by chained
/// calls that each set one option.
#[derive(Clone, Copy, Debug, PartialEq, Eq, Structural)]
pub struct DcmiConfig {
    pub ext_data_mode: ExtendedDataMode,
    pub frame_capt_ctrl: FrameRateCaptureControl,
    pub vertical_sync_polarity: Polarity,
    pub horizontal_sync_polarity: Polarity,
    pub pixel_clock_polarity: PixelClockPolarity,
    pub embedded_sync: bool,
    pub jpeg: bool,
    pub crop: bool,
    pub capture_mode: CaptureMode,
    /// Bitwise OR of the patterns of every attached interrupt.
    pub interrupt_raw: u8,
}

/// The default configuration: 8-bit data, every frame, both syncs active low,
/// sampling on the falling clock edge, no embedded sync, JPEG or crop,
/// continuous capture and no interrupts.
pub open spec fn default_config() -> DcmiConfig {
    DcmiConfig {
        ext_data_mode: ExtendedDataMode::Bit8,
        frame_capt_ctrl: FrameRateCaptureControl::All,
        vertical_sync_polarity: Polarity::ActiveLow,
        horizontal_sync_polarity: Polarity::ActiveLow,
        pixel_clock_polarity: PixelClockPolarity::FallingEdge,
        embedded_sync: false,
        jpeg: false,
        crop: false,
        capture_mode: CaptureMode::Continuous,
        interrupt_raw: 0,
    }
}

/// `c` with the interrupt `i` added to its enable mask.
pub open spec fn with_interrupt(c: DcmiConfig, i: DcmiInterrupt) -> DcmiConfig {
    DcmiConfig { interrupt_raw: c.interrupt_raw | interrupt_bits(i), ..c }
}

impl Default for DcmiConfig {
    fn default() -> (r: Self)
        ensures
            r == default_config(),
    {
        DcmiConfig {
            ext_data_mode: ExtendedDataMode::Bit8,
            frame_capt_ctrl: FrameRateCaptureControl::All,
            vertical_sync_polarity: Polarity::ActiveLow,
            horizontal_sync_polarity: Polarity::ActiveLow,
            pixel_clock_polarity: PixelClockPolarity::FallingEdge,
            embedded_sync: false,
            jpeg: false,
            crop: false,
            capture_mode: CaptureMode::Continuous,
            interrupt_raw: 0,
        }
    }
}

impl DcmiConfig {
    pub fn ext_data_mode(self, ext_data_mode: ExtendedDataMode) -> (r: Self)
        ensures
            r == (DcmiConfig { ext_data_mode, ..self }),
    {
        DcmiConfig { ext_data_mode, ..self }
    }

    pub fn frame_capt_ctrl(self, frame_capt_ctrl: FrameRateCaptureControl) -> (r: Self)
        ensures
            r == (DcmiConfig { frame_capt_ctrl, ..self }),
    {
        DcmiConfig { frame_capt_ctrl, ..self }
    }

    pub fn vertical_sync_polarity(self, vsync_polarity: Polarity) -> (r: Self)
        ensures
            r == (DcmiConfig { vertical_sync_polarity: vsync_polarity, ..self }),
    {
        DcmiConfig { vertical_sync_polarity: vsync_polarity, ..self }
    }

    pub fn horizontal_sync_polarity(self, hsync_polarity: Polarity) -> (r: Self)
        ensures
            r == (DcmiConfig { horizontal_sync_polarity: hsync_polarity, ..self }),
    {
        DcmiConfig { horizontal_sync_polarity: hsync_polarity, ..self }
    }

    pub fn pixel_clock_polarity(self, pxl_clk_polarity: PixelClockPolarity) -> (r: Self)
        ensures
            r == (DcmiConfig { pixel_clock_polarity: pxl_clk_polarity, ..self }),
    {
        DcmiConfig { pixel_clock_polarity: pxl_clk_polarity, ..self }
    }

    pub fn embedded_sync(self, embedded_sync: bool) -> (r: Self)
        ensures
            r == (DcmiConfig { embedded_sync, ..self }),
    {
        DcmiConfig { embedded_sync, ..self }
    }

    pub fn jpeg(self, jpeg: bool) -> (r: Self)
        ensures
            r == (DcmiConfig { jpeg, ..self }),
    {
        DcmiConfig { jpeg, ..self }
    }

    pub fn crop(self, crop: bool) -> (r: Self)
        ensures
            r == (DcmiConfig { crop, ..self }),
    {
        DcmiConfig { crop, ..self }
    }

    pub fn capture_mode(self, capture_mode: CaptureMode) -> (r: Self)
        ensures
            r == (DcmiConfig { capture_mode, ..self }),
    {
        DcmiConfig { capture_mode, ..self }
    }

    /// Adds one interrupt kind to the enable mask; the mask accumulates.
    pub fn attach_interrupt(self, interrupt: DcmiInterrupt) -> (r: Self)
        ensures
            r == with_interrupt(self, interrupt),
    {
        DcmiConfig { interrupt_raw: self.interrupt_raw | interrupt.bits(), ..self }
    }
}

/// Attaching an interrupt that is already attached changes nothing.
pub proof fn lemma_attach_idempotent(c: DcmiConfig, i: DcmiInterrupt)
    ensures
        with_interrupt(with_interrupt(c, i), i) == with_interrupt(c, i),
{
    let a = c.interrupt_raw;
    let b = interrupt_bits(i);
    assert((a | b) | b == a | b) by (bit_vector);
}

/// The order in which interrupts are attached does not matter.
pub proof fn lemma_attach_commutes(c: DcmiConfig, i: DcmiInterrupt, j: DcmiInterrupt)
    ensures
        with_interrupt(with_interrupt(c, i), j) == with_interrupt(with_interrupt(c, j), i),
{
    let a = c.interrupt_raw;
    let b = interrupt_bits(i);
    let d = interrupt_bits(j);
    assert((a | b) | d == (a | d) | b) by (bit_vector);
}

/// `All` is the union of the five single-event patterns, and each of those is
/// one distinct bit.
pub proof fn lemma_all_is_union()
    ensures
        interrupt_bits(DcmiInterrupt::All) == interrupt_bits(DcmiInterrupt::Line)
            | interrupt_bits(DcmiInterrupt::VSync) | interrupt_bits(DcmiInterrupt::Error)
            | interrupt_bits(DcmiInterrupt::Overrun) | interrupt_bits(DcmiInterrupt::Frame),
        forall|i: DcmiInterrupt, j: DcmiInterrupt|
            i != j && !(i is All) && !(j is All) ==> #[trigger] interrupt_bits(i)
                & #[trigger] interrupt_bits(j) == 0,
{
    assert(0x10u8 | 0x08u8 | 0x04u8 | 0x02u8 | 0x01u8 == 0x1Fu8) by (bit_vector);
    assert(0x10u8 & 0x08u8 == 0 && 0x10u8 & 0x04u8 == 0 && 0x10u8 & 0x02u8 == 0
        && 0x10u8 & 0x01u8 == 0 && 0x08u8 & 0x04u8 == 0 && 0x08u8 & 0x02u8 == 0
        && 0x08u8 & 0x01u8 == 0 && 0x04u8 & 0x02u8 == 0 && 0x04u8 & 0x01u8 == 0
        && 0x02u8 & 0x01u8 == 0 && 0x08u8 & 0x10u8 == 0 && 0x04u8 & 0x10u8 == 0
        && 0x02u8 & 0x10u8 == 0 && 0x01u8 & 0x10u8 == 0 && 0x04u8 & 0x08u8 == 0
        && 0x02u8 & 0x08u8 == 0 && 0x01u8 & 0x08u8 == 0 && 0x02u8 & 0x04u8 == 0
        && 0x01u8 & 0x04u8 == 0 && 0x01u8 & 0x02u8 == 0) by (bit_vector);
}

/// Each option encodes to a distinct value, within its field's width.
pub proof fn lemma_encodings_injective()
    ensures
        forall|a: ExtendedDataMode, b: ExtendedDataMode|
            #[trigger] data_mode_code(a) == #[trigger] data_mode_code(b) ==> a == b,
        forall|a: ExtendedDataMode| #[trigger] data_mode_code(a) < 4,
        forall|a: FrameRateCaptureControl, b: FrameRateCaptureControl|
            #[trigger] frame_control_code(a) == #[trigger] frame_control_code(b) ==> a == b,
        forall|a: FrameRateCaptureControl| #[trigger] frame_control_code(a) < 3,
        forall|a: Polarity, b: Polarity|
            #[trigger] polarity_bit(a) == #[trigger] polarity_bit(b) ==> a == b,
        forall|a: PixelClockPolarity, b: PixelClockPolarity|
            #[trigger] pixel_clock_bit(a) == #[trigger] pixel_clock_bit(b) ==> a == b,
        forall|a: CaptureMode, b: CaptureMode|
            #[trigger] capture_mode_bit(a) == #[trigger] capture_mode_bit(b) ==> a == b,
{
}

} // verus!
