//! The capture engine: owns the pin bundles, the configuration, the
//! register block and the DMA transfer; configures the peripheral, starts
//! capture, and acknowledges interrupts.

use vstd::prelude::*;
use crate::config::{
    capture_mode_bit, data_mode_code, frame_control_code, interrupt_bits, pixel_clock_bit,
    polarity_bit, CaptureMode, DcmiConfig, DcmiInterrupt,
};
use crate::dma::Transfer;
use crate::pins::{DcmiDataPins, DcmiSignalPins};
use crate::rcc::{slot_of, Enable, Peripheral, RccRegisters, RccWrite, RegisterKind};
use crate::registers::{
    BusWrite, DcmiPeripheral, CR_CAPTURE, CR_CM, CR_CROP, CR_EDM, CR_ENABLE, CR_ESS, CR_FCRC,
    CR_HSPOL, CR_JPEG, CR_PCKPOL, CR_VSPOL,
};

verus! {

/// The control register bits that the configuration decides.
pub const CR_CONFIG_MASK: u32 = 0x0FFC;

/// Why the engine could not be built.
#[derive(Clone, Copy, Debug, PartialEq, Eq, Structural)]
pub enum DcmiError {
    /// The DMA transfer was already running.
    AlreadyActive,
}

/// `bit` when `on`, else zero.
pub open spec fn flag(on: bool, bit: u32) -> u32 {
    if on {
        bit
    } else {
        0
    }
}

/// The control register value that a configuration calls for: every field
/// it decides, with capture, capture mode and enable clear.
pub open spec fn control_word(c: DcmiConfig) -> u32 {
    ((data_mode_code(c.ext_data_mode) as u32) << 10u32) | ((frame_control_code(c.frame_capt_ctrl)
        as u32) << 8u32) | flag(polarity_bit(c.vertical_sync_polarity), CR_VSPOL) | flag(
        polarity_bit(c.horizontal_sync_polarity),
        CR_HSPOL,
    ) | flag(pixel_clock_bit(c.pixel_clock_polarity), CR_PCKPOL) | flag(c.embedded_sync, CR_ESS)
        | flag(c.jpeg, CR_JPEG) | flag(c.crop, CR_CROP)
}

/// The writes that configuring the peripheral makes: the control register
/// reset, one write of every configuration field together, and the
/// interrupt enable mask.
pub open spec fn init_writes(c: DcmiConfig) -> Seq<BusWrite> {
    seq![
        BusWrite::ControlReset,
        BusWrite::Control(control_word(c)),
        BusWrite::InterruptEnable(c.interrupt_raw as u32),
    ]
}

/// The control register after the capture mode bit of a start.
pub open spec fn with_capture_mode(cr: u32, m: CaptureMode) -> u32 {
    (cr & !CR_CM) | flag(capture_mode_bit(m), CR_CM)
}

/// The writes that starting capture makes from control value `cr`: the
/// capture mode bit, then the enable bit, then the DMA stream.
pub open spec fn start_writes(cr: u32, m: CaptureMode) -> Seq<BusWrite> {
    seq![
        BusWrite::Control(with_capture_mode(cr, m)),
        BusWrite::Control((with_capture_mode(cr, m) & !CR_ENABLE) | CR_ENABLE),
        BusWrite::DmaStreamEnable,
    ]
}

/// The fields of `control_word` decode back to the configuration, and no bit
/// outside the configuration's fields is set.
proof fn lemma_word_layout(e: u32, f: u32, v: u32, h: u32, p: u32, s: u32, j: u32, k: u32)
    requires
        e < 4,
        f < 4,
        v == 0 || v == 0x80,
        h == 0 || h == 0x40,
        p == 0 || p == 0x20,
        s == 0 || s == 0x10,
        j == 0 || j == 0x08,
        k == 0 || k == 0x04,
    ensures
        (((e << 10u32) | (f << 8u32) | v | h | p | s | j | k) & 0x0C00u32) >> 10u32 == e,
        (((e << 10u32) | (f << 8u32) | v | h | p | s | j | k) & 0x0300u32) >> 8u32 == f,
        ((e << 10u32) | (f << 8u32) | v | h | p | s | j | k) & 0x80u32 == v,
        ((e << 10u32) | (f << 8u32) | v | h | p | s | j | k) & 0x40u32 == h,
        ((e << 10u32) | (f << 8u32) | v | h | p | s | j | k) & 0x20u32 == p,
        ((e << 10u32) | (f << 8u32) | v | h | p | s | j | k) & 0x10u32 == s,
        ((e << 10u32) | (f << 8u32) | v | h | p | s | j | k) & 0x08u32 == j,
        ((e << 10u32) | (f << 8u32) | v | h | p | s | j | k) & 0x04u32 == k,
        ((e << 10u32) | (f << 8u32) | v | h | p | s | j | k) & !0x0FFCu32 == 0,
{
    assert(((((e << 10u32) | (f << 8u32) | v | h | p | s | j | k) & 0x0C00u32) >> 10u32 == e)
        && ((((e << 10u32) | (f << 8u32) | v | h | p | s | j | k) & 0x0300u32) >> 8u32 == f)
        && (((e << 10u32) | (f << 8u32) | v | h | p | s | j | k) & 0x80u32 == v)
        && (((e << 10u32) | (f << 8u32) | v | h | p | s | j | k) & 0x40u32 == h)
        && (((e << 10u32) | (f << 8u32) | v | h | p | s | j | k) & 0x20u32 == p)
        && (((e << 10u32) | (f << 8u32) | v | h | p | s | j | k) & 0x10u32 == s)
        && (((e << 10u32) | (f << 8u32) | v | h | p | s | j | k) & 0x08u32 == j)
        && (((e << 10u32) | (f << 8u32) | v | h | p | s | j | k) & 0x04u32 == k)
        && (((e << 10u32) | (f << 8u32) | v | h | p | s | j | k) & !0x0FFCu32 == 0))
        by (bit_vector)
        requires
            e < 4,
            f < 4,
            v == 0 || v == 0x80,
            h == 0 || h == 0x40,
            p == 0 || p == 0x20,
            s == 0 || s == 0x10,
            j == 0 || j == 0x08,
            k == 0 || k == 0x04,
    ;
}

/// Each field of the control word that a configuration calls for holds
/// that configuration's code for it; capture, capture mode and enable are
/// clear.
pub proof fn lemma_control_word_fields(c: DcmiConfig)
    ensures
        (control_word(c) & CR_EDM) >> 10u32 == data_mode_code(c.ext_data_mode) as u32,
        (control_word(c) & CR_FCRC) >> 8u32 == frame_control_code(c.frame_capt_ctrl) as u32,
        (control_word(c) & CR_VSPOL != 0) == polarity_bit(c.vertical_sync_polarity),
        (control_word(c) & CR_HSPOL != 0) == polarity_bit(c.horizontal_sync_polarity),
        (control_word(c) & CR_PCKPOL != 0) == pixel_clock_bit(c.pixel_clock_polarity),
        (control_word(c) & CR_ESS != 0) == c.embedded_sync,
        (control_word(c) & CR_JPEG != 0) == c.jpeg,
        (control_word(c) & CR_CROP != 0) == c.crop,
        control_word(c) & !CR_CONFIG_MASK == 0,
        control_word(c) & CR_CAPTURE == 0,
        control_word(c) & CR_CM == 0,
        control_word(c) & CR_ENABLE == 0,
{
    let w = control_word(c);
    lemma_word_layout(
        data_mode_code(c.ext_data_mode) as u32,
        frame_control_code(c.frame_capt_ctrl) as u32,
        flag(polarity_bit(c.vertical_sync_polarity), CR_VSPOL),
        flag(polarity_bit(c.horizontal_sync_polarity), CR_HSPOL),
        flag(pixel_clock_bit(c.pixel_clock_polarity), CR_PCKPOL),
        flag(c.embedded_sync, CR_ESS),
        flag(c.jpeg, CR_JPEG),
        flag(c.crop, CR_CROP),
    );
    assert(w & !0x0FFCu32 == 0 ==> w & 0x0001u32 == 0 && w & 0x0002u32 == 0 && w & 0x4000u32 == 0)
        by (bit_vector);
}

/// Computes `control_word(*c)`.
fn control_bits(c: &DcmiConfig) -> (r: u32)
    ensures
        r == control_word(*c),
{
    let edm: u8 = c.ext_data_mode.into();
    let fcrc: u8 = c.frame_capt_ctrl.into();
    let vspol: bool = c.vertical_sync_polarity.into();
    let hspol: bool = c.horizontal_sync_polarity.into();
    let pckpol: bool = c.pixel_clock_polarity.into();
    ((edm as u32) << 10u32) | ((fcrc as u32) << 8u32) | (if vspol {
        CR_VSPOL
    } else {
        0
    }) | (if hspol {
        CR_HSPOL
    } else {
        0
    }) | (if pckpol {
        CR_PCKPOL
    } else {
        0
    }) | (if c.embedded_sync {
        CR_ESS
    } else {
        0
    }) | (if c.jpeg {
        CR_JPEG
    } else {
        0
    }) | (if c.crop {
        CR_CROP
    } else {
        0
    })
}

/// The camera interface capture engine.
pub struct Dcmi<DPins, SPins> {
    dma_transfer: Transfer,
    config: DcmiConfig,
    data_pins: DPins,
    signal_pins: SPins,
    periph: DcmiPeripheral,
}

impl<DPins: DcmiDataPins, SPins: DcmiSignalPins> Dcmi<DPins, SPins> {
    pub closed spec fn spec_config(&self) -> DcmiConfig {
        self.config
    }

    pub closed spec fn spec_transfer(&self) -> Transfer {
        self.dma_transfer
    }

    pub closed spec fn spec_data_pins(&self) -> DPins {
        self.data_pins
    }

    pub closed spec fn spec_signal_pins(&self) -> SPins {
        self.signal_pins
    }

    pub closed spec fn spec_peripheral(&self) -> DcmiPeripheral {
        self.periph
    }

    /// Capturing: the DMA stream runs and the peripheral is enabled.
    pub open spec fn is_capturing(&self) -> bool {
        &&& self.spec_transfer().is_enabled_spec()
        &&& self.spec_peripheral().control_spec() & CR_ENABLE != 0
    }

    /// Configures the peripheral from `config` and enables its clock.
    /// Fails, changing nothing, if `dma_transfer` is already running.
    pub fn init(
        data_pins: DPins,
        signal_pins: SPins,
        dma_transfer: Transfer,
        config: DcmiConfig,
        periph: DcmiPeripheral,
        rcc: &mut RccRegisters,
    ) -> (r: Result<Self, DcmiError>)
        ensures
            dma_transfer.is_enabled_spec() ==> r == Err::<Self, DcmiError>(DcmiError::AlreadyActive)
                && *final(rcc) == *old(rcc),
            !dma_transfer.is_enabled_spec() ==> (r matches Ok(d) && {
                &&& d.spec_config() == config
                &&& d.spec_transfer() == dma_transfer
                &&& d.spec_data_pins() == data_pins
                &&& d.spec_signal_pins() == signal_pins
                &&& d.spec_peripheral().control_spec() == control_word(config)
                &&& d.spec_peripheral().interrupt_enable_spec() == config.interrupt_raw as u32
                &&& d.spec_peripheral().trace() == periph.trace() + init_writes(config)
                &&& !d.is_capturing()
            }),
            !dma_transfer.is_enabled_spec() ==> RccRegisters::one_bit_changed(
                old(rcc),
                final(rcc),
                RegisterKind::Enable,
                slot_of(Peripheral::Dcmi).bus,
                slot_of(Peripheral::Dcmi).enable_bit,
                true,
            ) && final(rcc).trace() == old(rcc).trace().push(
                RccWrite {
                    kind: RegisterKind::Enable,
                    bus: slot_of(Peripheral::Dcmi).bus,
                    value: final(rcc).reg(RegisterKind::Enable, slot_of(Peripheral::Dcmi).bus),
                },
            ),
    {
        if dma_transfer.is_enabled() {
            return Err(DcmiError::AlreadyActive);
        }
        let ghost before = periph.trace();
        let mut periph = periph;
        periph.reset_control();
        let word = control_bits(&config);
        proof {
            lemma_control_word_fields(config);
            assert(word & !CR_CONFIG_MASK == 0);
            assert((0u32 & !CR_CONFIG_MASK) | word == word) by (bit_vector);
        }
        periph.modify_control(CR_CONFIG_MASK, word);
        periph.write_interrupt_enable(config.interrupt_raw as u32);
        Peripheral::Dcmi.enable(rcc);
        proof {
            assert(periph.trace() =~= before + init_writes(config));
        }
        Ok(Dcmi { dma_transfer, config, data_pins, signal_pins, periph })
    }

    /// Starts capture: arms the DMA transfer, whose setup first writes the
    /// capture mode bit of the configuration, then the enable bit, before
    /// the stream is switched on.
    pub fn start(&mut self)
        ensures
            final(self).spec_config() == old(self).spec_config(),
            final(self).spec_data_pins() == old(self).spec_data_pins(),
            final(self).spec_signal_pins() == old(self).spec_signal_pins(),
            final(self).spec_transfer().buffer_spec() == old(self).spec_transfer().buffer_spec(),
            final(self).spec_peripheral().interrupt_enable_spec() == old(
                self,
            ).spec_peripheral().interrupt_enable_spec(),
            final(self).spec_peripheral().control_spec() == (with_capture_mode(
                old(self).spec_peripheral().control_spec(),
                old(self).spec_config().capture_mode,
            ) & !CR_ENABLE) | CR_ENABLE,
            final(self).spec_peripheral().trace() == old(self).spec_peripheral().trace()
                + start_writes(
                old(self).spec_peripheral().control_spec(),
                old(self).spec_config().capture_mode,
            ),
            final(self).is_capturing(),
    {
        let ghost before = self.periph.trace();
        let capture_mode: bool = self.config.capture_mode.into();
        let mode_bit: u32 = if capture_mode {
            CR_CM
        } else {
            0
        };
        proof {
            assert(0u32 & !0x0002u32 == 0 && 0x0002u32 & !0x0002u32 == 0) by (bit_vector);
        }
        self.periph.modify_control(CR_CM, mode_bit);
        proof {
            assert(0x4000u32 & !0x4000u32 == 0) by (bit_vector);
        }
        self.periph.modify_control(CR_ENABLE, CR_ENABLE);
        self.dma_transfer.start_stream(&mut self.periph);
        proof {
            let x = with_capture_mode(
                old(self).spec_peripheral().control_spec(),
                old(self).spec_config().capture_mode,
            );
            assert(((x & !0x4000u32) | 0x4000u32) & 0x4000u32 != 0) by (bit_vector);
            assert(self.periph.trace() =~= before + start_writes(
                old(self).spec_peripheral().control_spec(),
                old(self).spec_config().capture_mode,
            ));
        }
    }

    /// Acknowledges `interrupt`: writes its bits, and only those, to the
    /// write-1-to-clear register.
    pub fn clear_interrupt(&mut self, interrupt: DcmiInterrupt)
        ensures
            final(self).spec_config() == old(self).spec_config(),
            final(self).spec_data_pins() == old(self).spec_data_pins(),
            final(self).spec_signal_pins() == old(self).spec_signal_pins(),
            final(self).spec_transfer() == old(self).spec_transfer(),
            final(self).spec_peripheral().control_spec() == old(
                self,
            ).spec_peripheral().control_spec(),
            final(self).spec_peripheral().interrupt_enable_spec() == old(
                self,
            ).spec_peripheral().interrupt_enable_spec(),
            final(self).spec_peripheral().trace() == old(self).spec_peripheral().trace().push(
                BusWrite::InterruptClear(interrupt_bits(interrupt) as u32),
            ),
    {
        self.periph.write_interrupt_clear(interrupt.bits() as u32);
    }

    /// The configuration applied at initialization.
    pub fn config(&self) -> (r: DcmiConfig)
        ensures
            r == self.spec_config(),
    {
        self.config
    }

    /// The register block, with the record of the writes made to it.
    pub fn peripheral(&self) -> (r: &DcmiPeripheral)
        ensures
            *r == self.spec_peripheral(),
    {
        &self.periph
    }

    /// The DMA transfer.
    pub fn transfer(&self) -> (r: &Transfer)
        ensures
            *r == self.spec_transfer(),
    {
        &self.dma_transfer
    }
}

/// Configuring writes the control register once after its reset, with every
/// configuration field in that one write, and leaves capture disabled.
pub proof fn lemma_init_single_control_write(c: DcmiConfig)
    ensures
        init_writes(c).len() == 3,
        init_writes(c)[0] == BusWrite::ControlReset,
        init_writes(c)[1] == BusWrite::Control(control_word(c)),
        forall|i: int| 0 <= i < 3 && (#[trigger] init_writes(c)[i]) is Control ==> i == 1,
        (control_word(c) & CR_EDM) >> 10u32 == data_mode_code(c.ext_data_mode) as u32,
        (control_word(c) & CR_FCRC) >> 8u32 == frame_control_code(c.frame_capt_ctrl) as u32,
        (control_word(c) & CR_VSPOL != 0) == polarity_bit(c.vertical_sync_polarity),
        (control_word(c) & CR_HSPOL != 0) == polarity_bit(c.horizontal_sync_polarity),
        (control_word(c) & CR_PCKPOL != 0) == pixel_clock_bit(c.pixel_clock_polarity),
        (control_word(c) & CR_ESS != 0) == c.embedded_sync,
        (control_word(c) & CR_JPEG != 0) == c.jpeg,
        (control_word(c) & CR_CROP != 0) == c.crop,
        control_word(c) & CR_ENABLE == 0,
{
    lemma_control_word_fields(c);
}

/// Starting writes the capture mode bit first, with enable not yet
/// changed; then sets enable, keeping that capture mode; and only then
/// switches the DMA stream on. This holds for both capture modes.
pub proof fn lemma_start_order(cr: u32, m: CaptureMode)
    ensures
        start_writes(cr, m).len() == 3,
        start_writes(cr, m)[0] matches BusWrite::Control(w) && {
            &&& (w & CR_CM != 0) == capture_mode_bit(m)
            &&& w & CR_ENABLE == cr & CR_ENABLE
        },
        start_writes(cr, m)[1] matches BusWrite::Control(w) && {
            &&& (w & CR_CM != 0) == capture_mode_bit(m)
            &&& w & CR_ENABLE != 0
        },
        start_writes(cr, m)[2] == BusWrite::DmaStreamEnable,
        forall|i: int|
            0 <= i < 3 && (#[trigger] start_writes(cr, m)[i]) is DmaStreamEnable ==> i == 2,
{
    let x = with_capture_mode(cr, m);
    if capture_mode_bit(m) {
        assert(((cr & !0x0002u32) | 0x0002u32) & 0x0002u32 != 0) by (bit_vector);
        assert(((cr & !0x0002u32) | 0x0002u32) & 0x4000u32 == cr & 0x4000u32) by (bit_vector);
    } else {
        assert(((cr & !0x0002u32) | 0u32) & 0x0002u32 == 0) by (bit_vector);
        assert(((cr & !0x0002u32) | 0u32) & 0x4000u32 == cr & 0x4000u32) by (bit_vector);
    }
    assert(((x & !0x4000u32) | 0x4000u32) & 0x0002u32 == x & 0x0002u32) by (bit_vector);
    assert(((x & !0x4000u32) | 0x4000u32) & 0x4000u32 != 0) by (bit_vector);
}

} // verus!
