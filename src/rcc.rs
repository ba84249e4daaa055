//! The clock controller's peripheral enable, low-power enable and reset
//! bits, driven from one table that gives, for each peripheral, its bus and
//! its bit positions.

use vstd::prelude::*;

verus! {

/// The bus a peripheral sits on; each has its own enable, low-power enable
/// and reset register.
#[derive(Clone, Copy, Debug, PartialEq, Eq, Structural)]
pub enum Bus {
    Ahb1,
    Ahb2,
    Ahb3,
    Apb1,
    Apb2,
}

/// The three kinds of per-bus register.
#[derive(Clone, Copy, Debug, PartialEq, Eq, Structural)]
pub enum RegisterKind {
    /// Clock enable (`xxxENR`).
    Enable,
    /// Clock enable in sleep mode (`xxxLPENR`).
    LowPowerEnable,
    /// Reset (`xxxRSTR`).
    Reset,
}

/// Where a peripheral's bits are: its bus, the bit position in the enable and
/// low-power enable registers, and the bit position in the reset register.
#[derive(Clone, Copy, Debug, PartialEq, Eq, Structural)]
pub struct Slot {
    pub bus: Bus,
    pub enable_bit: u32,
    pub reset_bit: u32,
}

/// The peripherals whose clock the controller gates.
#[derive(Clone, Copy, Debug, PartialEq, Eq, Structural)]
pub enum Peripheral {
    Crc,
    Dma1,
    Dma2,
    GpioA,
    GpioB,
    GpioC,
    GpioD,
    GpioE,
    GpioF,
    GpioG,
    GpioH,
    GpioI,
    GpioJ,
    GpioK,
    Dcmi,
    OtgFs,
    Fmc,
    Fsmc,
    Spi2,
    Spi3,
    Usart2,
    Usart3,
    Uart4,
    Uart5,
    I2c1,
    I2c2,
    I2c3,
    Fmpi2c1,
    Can1,
    Can2,
    Pwr,
    Dac,
    Uart7,
    Uart8,
    Usart1,
    Usart6,
    Uart9,
    Uart10,
    Adc1,
    Adc2,
    Adc3,
    Sdio,
    Spi1,
    Spi4,
    Syscfg,
    Spi5,
    Spi6,
}

/// The table of bit positions.
pub open spec fn slot_of(p: Peripheral) -> Slot {
    match p {
        Peripheral::Crc => Slot { bus: Bus::Ahb1, enable_bit: 12, reset_bit: 12 },
        Peripheral::Dma1 => Slot { bus: Bus::Ahb1, enable_bit: 21, reset_bit: 21 },
        Peripheral::Dma2 => Slot { bus: Bus::Ahb1, enable_bit: 22, reset_bit: 22 },
        Peripheral::GpioA => Slot { bus: Bus::Ahb1, enable_bit: 0, reset_bit: 0 },
        Peripheral::GpioB => Slot { bus: Bus::Ahb1, enable_bit: 1, reset_bit: 1 },
        Peripheral::GpioC => Slot { bus: Bus::Ahb1, enable_bit: 2, reset_bit: 2 },
        Peripheral::GpioD => Slot { bus: Bus::Ahb1, enable_bit: 3, reset_bit: 3 },
        Peripheral::GpioE => Slot { bus: Bus::Ahb1, enable_bit: 4, reset_bit: 4 },
        Peripheral::GpioF => Slot { bus: Bus::Ahb1, enable_bit: 5, reset_bit: 5 },
        Peripheral::GpioG => Slot { bus: Bus::Ahb1, enable_bit: 6, reset_bit: 6 },
        Peripheral::GpioH => Slot { bus: Bus::Ahb1, enable_bit: 7, reset_bit: 7 },
        Peripheral::GpioI => Slot { bus: Bus::Ahb1, enable_bit: 8, reset_bit: 8 },
        Peripheral::GpioJ => Slot { bus: Bus::Ahb1, enable_bit: 9, reset_bit: 9 },
        Peripheral::GpioK => Slot { bus: Bus::Ahb1, enable_bit: 10, reset_bit: 10 },
        Peripheral::Dcmi => Slot { bus: Bus::Ahb2, enable_bit: 0, reset_bit: 0 },
        Peripheral::OtgFs => Slot { bus: Bus::Ahb2, enable_bit: 7, reset_bit: 7 },
        Peripheral::Fmc => Slot { bus: Bus::Ahb3, enable_bit: 0, reset_bit: 0 },
        Peripheral::Fsmc => Slot { bus: Bus::Ahb3, enable_bit: 0, reset_bit: 0 },
        Peripheral::Spi2 => Slot { bus: Bus::Apb1, enable_bit: 14, reset_bit: 14 },
        Peripheral::Spi3 => Slot { bus: Bus::Apb1, enable_bit: 15, reset_bit: 15 },
        Peripheral::Usart2 => Slot { bus: Bus::Apb1, enable_bit: 17, reset_bit: 17 },
        Peripheral::Usart3 => Slot { bus: Bus::Apb1, enable_bit: 18, reset_bit: 18 },
        Peripheral::Uart4 => Slot { bus: Bus::Apb1, enable_bit: 19, reset_bit: 19 },
        Peripheral::Uart5 => Slot { bus: Bus::Apb1, enable_bit: 20, reset_bit: 20 },
        Peripheral::I2c1 => Slot { bus: Bus::Apb1, enable_bit: 21, reset_bit: 21 },
        Peripheral::I2c2 => Slot { bus: Bus::Apb1, enable_bit: 22, reset_bit: 22 },
        Peripheral::I2c3 => Slot { bus: Bus::Apb1, enable_bit: 23, reset_bit: 23 },
        Peripheral::Fmpi2c1 => Slot { bus: Bus::Apb1, enable_bit: 24, reset_bit: 24 },
        Peripheral::Can1 => Slot { bus: Bus::Apb1, enable_bit: 25, reset_bit: 25 },
        Peripheral::Can2 => Slot { bus: Bus::Apb1, enable_bit: 26, reset_bit: 26 },
        Peripheral::Pwr => Slot { bus: Bus::Apb1, enable_bit: 28, reset_bit: 28 },
        Peripheral::Dac => Slot { bus: Bus::Apb1, enable_bit: 29, reset_bit: 29 },
        Peripheral::Uart7 => Slot { bus: Bus::Apb1, enable_bit: 30, reset_bit: 30 },
        Peripheral::Uart8 => Slot { bus: Bus::Apb1, enable_bit: 31, reset_bit: 31 },
        Peripheral::Usart1 => Slot { bus: Bus::Apb2, enable_bit: 4, reset_bit: 4 },
        Peripheral::Usart6 => Slot { bus: Bus::Apb2, enable_bit: 5, reset_bit: 5 },
        Peripheral::Uart9 => Slot { bus: Bus::Apb2, enable_bit: 6, reset_bit: 6 },
        Peripheral::Uart10 => Slot { bus: Bus::Apb2, enable_bit: 7, reset_bit: 7 },
        Peripheral::Adc1 => Slot { bus: Bus::Apb2, enable_bit: 8, reset_bit: 8 },
        Peripheral::Adc2 => Slot { bus: Bus::Apb2, enable_bit: 9, reset_bit: 8 },
        Peripheral::Adc3 => Slot { bus: Bus::Apb2, enable_bit: 10, reset_bit: 8 },
        Peripheral::Sdio => Slot { bus: Bus::Apb2, enable_bit: 11, reset_bit: 11 },
        Peripheral::Spi1 => Slot { bus: Bus::Apb2, enable_bit: 12, reset_bit: 12 },
        Peripheral::Spi4 => Slot { bus: Bus::Apb2, enable_bit: 13, reset_bit: 13 },
        Peripheral::Syscfg => Slot { bus: Bus::Apb2, enable_bit: 14, reset_bit: 14 },
        Peripheral::Spi5 => Slot { bus: Bus::Apb2, enable_bit: 20, reset_bit: 20 },
        Peripheral::Spi6 => Slot { bus: Bus::Apb2, enable_bit: 21, reset_bit: 21 },
    }
}

impl Peripheral {
    /// This peripheral's entry of the table.
    pub fn slot(self) -> (r: Slot)
        ensures
            r == slot_of(self),
            r.enable_bit < 32,
            r.reset_bit < 32,
    {
        match self {
            Peripheral::Crc => Slot { bus: Bus::Ahb1, enable_bit: 12, reset_bit: 12 },
            Peripheral::Dma1 => Slot { bus: Bus::Ahb1, enable_bit: 21, reset_bit: 21 },
            Peripheral::Dma2 => Slot { bus: Bus::Ahb1, enable_bit: 22, reset_bit: 22 },
            Peripheral::GpioA => Slot { bus: Bus::Ahb1, enable_bit: 0, reset_bit: 0 },
            Peripheral::GpioB => Slot { bus: Bus::Ahb1, enable_bit: 1, reset_bit: 1 },
            Peripheral::GpioC => Slot { bus: Bus::Ahb1, enable_bit: 2, reset_bit: 2 },
            Peripheral::GpioD => Slot { bus: Bus::Ahb1, enable_bit: 3, reset_bit: 3 },
            Peripheral::GpioE => Slot { bus: Bus::Ahb1, enable_bit: 4, reset_bit: 4 },
            Peripheral::GpioF => Slot { bus: Bus::Ahb1, enable_bit: 5, reset_bit: 5 },
            Peripheral::GpioG => Slot { bus: Bus::Ahb1, enable_bit: 6, reset_bit: 6 },
            Peripheral::GpioH => Slot { bus: Bus::Ahb1, enable_bit: 7, reset_bit: 7 },
            Peripheral::GpioI => Slot { bus: Bus::Ahb1, enable_bit: 8, reset_bit: 8 },
            Peripheral::GpioJ => Slot { bus: Bus::Ahb1, enable_bit: 9, reset_bit: 9 },
            Peripheral::GpioK => Slot { bus: Bus::Ahb1, enable_bit: 10, reset_bit: 10 },
            Peripheral::Dcmi => Slot { bus: Bus::Ahb2, enable_bit: 0, reset_bit: 0 },
            Peripheral::OtgFs => Slot { bus: Bus::Ahb2, enable_bit: 7, reset_bit: 7 },
            Peripheral::Fmc => Slot { bus: Bus::Ahb3, enable_bit: 0, reset_bit: 0 },
            Peripheral::Fsmc => Slot { bus: Bus::Ahb3, enable_bit: 0, reset_bit: 0 },
            Peripheral::Spi2 => Slot { bus: Bus::Apb1, enable_bit: 14, reset_bit: 14 },
            Peripheral::Spi3 => Slot { bus: Bus::Apb1, enable_bit: 15, reset_bit: 15 },
            Peripheral::Usart2 => Slot { bus: Bus::Apb1, enable_bit: 17, reset_bit: 17 },
            Peripheral::Usart3 => Slot { bus: Bus::Apb1, enable_bit: 18, reset_bit: 18 },
            Peripheral::Uart4 => Slot { bus: Bus::Apb1, enable_bit: 19, reset_bit: 19 },
            Peripheral::Uart5 => Slot { bus: Bus::Apb1, enable_bit: 20, reset_bit: 20 },
            Peripheral::I2c1 => Slot { bus: Bus::Apb1, enable_bit: 21, reset_bit: 21 },
            Peripheral::I2c2 => Slot { bus: Bus::Apb1, enable_bit: 22, reset_bit: 22 },
            Peripheral::I2c3 => Slot { bus: Bus::Apb1, enable_bit: 23, reset_bit: 23 },
            Peripheral::Fmpi2c1 => Slot { bus: Bus::Apb1, enable_bit: 24, reset_bit: 24 },
            Peripheral::Can1 => Slot { bus: Bus::Apb1, enable_bit: 25, reset_bit: 25 },
            Peripheral::Can2 => Slot { bus: Bus::Apb1, enable_bit: 26, reset_bit: 26 },
            Peripheral::Pwr => Slot { bus: Bus::Apb1, enable_bit: 28, reset_bit: 28 },
            Peripheral::Dac => Slot { bus: Bus::Apb1, enable_bit: 29, reset_bit: 29 },
            Peripheral::Uart7 => Slot { bus: Bus::Apb1, enable_bit: 30, reset_bit: 30 },
            Peripheral::Uart8 => Slot { bus: Bus::Apb1, enable_bit: 31, reset_bit: 31 },
            Peripheral::Usart1 => Slot { bus: Bus::Apb2, enable_bit: 4, reset_bit: 4 },
            Peripheral::Usart6 => Slot { bus: Bus::Apb2, enable_bit: 5, reset_bit: 5 },
            Peripheral::Uart9 => Slot { bus: Bus::Apb2, enable_bit: 6, reset_bit: 6 },
            Peripheral::Uart10 => Slot { bus: Bus::Apb2, enable_bit: 7, reset_bit: 7 },
            Peripheral::Adc1 => Slot { bus: Bus::Apb2, enable_bit: 8, reset_bit: 8 },
            Peripheral::Adc2 => Slot { bus: Bus::Apb2, enable_bit: 9, reset_bit: 8 },
            Peripheral::Adc3 => Slot { bus: Bus::Apb2, enable_bit: 10, reset_bit: 8 },
            Peripheral::Sdio => Slot { bus: Bus::Apb2, enable_bit: 11, reset_bit: 11 },
            Peripheral::Spi1 => Slot { bus: Bus::Apb2, enable_bit: 12, reset_bit: 12 },
            Peripheral::Spi4 => Slot { bus: Bus::Apb2, enable_bit: 13, reset_bit: 13 },
            Peripheral::Syscfg => Slot { bus: Bus::Apb2, enable_bit: 14, reset_bit: 14 },
            Peripheral::Spi5 => Slot { bus: Bus::Apb2, enable_bit: 20, reset_bit: 20 },
            Peripheral::Spi6 => Slot { bus: Bus::Apb2, enable_bit: 21, reset_bit: 21 },
        }
    }
}

/// `v` with bit `bit` set (`on`) or cleared.
pub open spec fn with_bit(v: u32, bit: u32, on: bool) -> u32 {
    if on {
        v | (1u32 << bit)
    } else {
        v & !(1u32 << bit)
    }
}

/// One write to a clock controller register: which one, and the value.
#[derive(Clone, Copy, Debug, PartialEq, Eq, Structural)]
pub struct RccWrite {
    pub kind: RegisterKind,
    pub bus: Bus,
    pub value: u32,
}

/// One register per bus.
#[derive(Clone, Copy, Debug, PartialEq, Eq, Structural)]
pub struct PerBus {
    pub ahb1: u32,
    pub ahb2: u32,
    pub ahb3: u32,
    pub apb1: u32,
    pub apb2: u32,
}

impl PerBus {
    pub open spec fn get(&self, b: Bus) -> u32 {
        match b {
            Bus::Ahb1 => self.ahb1,
            Bus::Ahb2 => self.ahb2,
            Bus::Ahb3 => self.ahb3,
            Bus::Apb1 => self.apb1,
            Bus::Apb2 => self.apb2,
        }
    }

    /// The register of bus `b`.
    pub fn read(&self, b: Bus) -> (r: u32)
        ensures
            r == self.get(b),
    {
        match b {
            Bus::Ahb1 => self.ahb1,
            Bus::Ahb2 => self.ahb2,
            Bus::Ahb3 => self.ahb3,
            Bus::Apb1 => self.apb1,
            Bus::Apb2 => self.apb2,
        }
    }

    /// Writes `v` to the register of bus `b`.
    pub fn write(&mut self, b: Bus, v: u32)
        ensures
            forall|b2: Bus| #[trigger] final(self).get(b2) == if b2 == b {
                v
            } else {
                old(self).get(b2)
            },
    {
        match b {
            Bus::Ahb1 => self.ahb1 = v,
            Bus::Ahb2 => self.ahb2 = v,
            Bus::Ahb3 => self.ahb3 = v,
            Bus::Apb1 => self.apb1 = v,
            Bus::Apb2 => self.apb2 = v,
        }
    }
}

/// A model of the clock controller's enable, low-power enable and reset
/// registers, with the ordered record of the writes made to them.
pub struct RccRegisters {
    enr: PerBus,
    lpenr: PerBus,
    rstr: PerBus,
    writes: Vec<RccWrite>,
}

impl RccRegisters {
    /// The current value of the register of kind `k` on bus `b`.
    pub closed spec fn reg(&self, k: RegisterKind, b: Bus) -> u32 {
        match k {
            RegisterKind::Enable => self.enr.get(b),
            RegisterKind::LowPowerEnable => self.lpenr.get(b),
            RegisterKind::Reset => self.rstr.get(b),
        }
    }

    /// Every write made, oldest first.
    pub closed spec fn trace(&self) -> Seq<RccWrite> {
        self.writes@
    }

    /// `after` is `before` with bit `bit` of register (`k`, `b`) set or
    /// cleared, every other register alike.
    pub open spec fn one_bit_changed(
        before: &RccRegisters,
        after: &RccRegisters,
        k: RegisterKind,
        b: Bus,
        bit: u32,
        on: bool,
    ) -> bool {
        forall|k2: RegisterKind, b2: Bus|
            #[trigger] after.reg(k2, b2) == if k2 == k && b2 == b {
                with_bit(before.reg(k2, b2), bit, on)
            } else {
                before.reg(k2, b2)
            }
    }

    /// Every register zero, nothing written.
    pub fn new() -> (r: Self)
        ensures
            forall|k: RegisterKind, b: Bus| #[trigger] r.reg(k, b) == 0,
            r.trace() == Seq::<RccWrite>::empty(),
    {
        let zero = PerBus { ahb1: 0, ahb2: 0, ahb3: 0, apb1: 0, apb2: 0 };
        RccRegisters { enr: zero, lpenr: zero, rstr: zero, writes: Vec::new() }
    }

    /// The current value of the register of kind `k` on bus `b`.
    pub fn register(&self, k: RegisterKind, b: Bus) -> (r: u32)
        ensures
            r == self.reg(k, b),
    {
        match k {
            RegisterKind::Enable => self.enr.read(b),
            RegisterKind::LowPowerEnable => self.lpenr.read(b),
            RegisterKind::Reset => self.rstr.read(b),
        }
    }

    /// The writes made so far, oldest first.
    pub fn writes(&self) -> (r: &Vec<RccWrite>)
        ensures
            r@ == self.trace(),
    {
        &self.writes
    }

    /// One read-modify-write that sets or clears a single bit.
    fn modify_bit(&mut self, k: RegisterKind, b: Bus, bit: u32, on: bool)
        requires
            bit < 32,
        ensures
            Self::one_bit_changed(old(self), final(self), k, b, bit, on),
            final(self).trace() == old(self).trace().push(
                RccWrite { kind: k, bus: b, value: with_bit(old(self).reg(k, b), bit, on) },
            ),
    {
        let m: u32 = 1u32 << bit;
        let v: u32 = self.register(k, b);
        let nv: u32 = if on {
            v | m
        } else {
            v & !m
        };
        match k {
            RegisterKind::Enable => self.enr.write(b, nv),
            RegisterKind::LowPowerEnable => self.lpenr.write(b, nv),
            RegisterKind::Reset => self.rstr.write(b, nv),
        }
        self.writes.push(RccWrite { kind: k, bus: b, value: nv });
    }
}

/// Closes the enable traits to the peripherals of the table.
pub trait Sealed {
    /// Where this peripheral's bits are.
    spec fn slot_spec(&self) -> Slot;
}

/// Enable/disable peripheral
pub trait Enable: Sealed {
    /// Sets the peripheral's clock enable bit.
    fn enable(&self, rcc: &mut RccRegisters)
        ensures
            RccRegisters::one_bit_changed(
                old(rcc),
                final(rcc),
                RegisterKind::Enable,
                self.slot_spec().bus,
                self.slot_spec().enable_bit,
                true,
            ),
            final(rcc).trace() == old(rcc).trace().push(
                RccWrite {
                    kind: RegisterKind::Enable,
                    bus: self.slot_spec().bus,
                    value: final(rcc).reg(RegisterKind::Enable, self.slot_spec().bus),
                },
            ),
    ;

    /// Clears the peripheral's clock enable bit.
    fn disable(&self, rcc: &mut RccRegisters)
        ensures
            RccRegisters::one_bit_changed(
                old(rcc),
                final(rcc),
                RegisterKind::Enable,
                self.slot_spec().bus,
                self.slot_spec().enable_bit,
                false,
            ),
            final(rcc).trace() == old(rcc).trace().push(
                RccWrite {
                    kind: RegisterKind::Enable,
                    bus: self.slot_spec().bus,
                    value: final(rcc).reg(RegisterKind::Enable, self.slot_spec().bus),
                },
            ),
    ;
}

/// Low power enable/disable peripheral
pub trait LPEnable: Sealed {
    /// Sets the peripheral's sleep-mode clock enable bit.
    fn low_power_enable(&self, rcc: &mut RccRegisters)
        ensures
            RccRegisters::one_bit_changed(
                old(rcc),
                final(rcc),
                RegisterKind::LowPowerEnable,
                self.slot_spec().bus,
                self.slot_spec().enable_bit,
                true,
            ),
            final(rcc).trace() == old(rcc).trace().push(
                RccWrite {
                    kind: RegisterKind::LowPowerEnable,
                    bus: self.slot_spec().bus,
                    value: final(rcc).reg(RegisterKind::LowPowerEnable, self.slot_spec().bus),
                },
            ),
    ;

    /// Clears the peripheral's sleep-mode clock enable bit.
    fn low_power_disable(&self, rcc: &mut RccRegisters)
        ensures
            RccRegisters::one_bit_changed(
                old(rcc),
                final(rcc),
                RegisterKind::LowPowerEnable,
                self.slot_spec().bus,
                self.slot_spec().enable_bit,
                false,
            ),
            final(rcc).trace() == old(rcc).trace().push(
                RccWrite {
                    kind: RegisterKind::LowPowerEnable,
                    bus: self.slot_spec().bus,
                    value: final(rcc).reg(RegisterKind::LowPowerEnable, self.slot_spec().bus),
                },
            ),
    ;
}

/// Reset peripheral
pub trait Reset: Sealed {
    /// Pulses the peripheral's reset bit: sets it, then clears it.
    fn reset(&self, rcc: &mut RccRegisters)
        ensures
            RccRegisters::one_bit_changed(
                old(rcc),
                final(rcc),
                RegisterKind::Reset,
                self.slot_spec().bus,
                self.slot_spec().reset_bit,
                false,
            ),
            final(rcc).trace() == old(rcc).trace().push(
                RccWrite {
                    kind: RegisterKind::Reset,
                    bus: self.slot_spec().bus,
                    value: with_bit(
                        old(rcc).reg(RegisterKind::Reset, self.slot_spec().bus),
                        self.slot_spec().reset_bit,
                        true,
                    ),
                },
            ).push(
                RccWrite {
                    kind: RegisterKind::Reset,
                    bus: self.slot_spec().bus,
                    value: final(rcc).reg(RegisterKind::Reset, self.slot_spec().bus),
                },
            ),
    ;
}

impl Sealed for Peripheral {
    open spec fn slot_spec(&self) -> Slot {
        slot_of(*self)
    }
}

impl Enable for Peripheral {
    fn enable(&self, rcc: &mut RccRegisters) {
        let s = self.slot();
        rcc.modify_bit(RegisterKind::Enable, s.bus, s.enable_bit, true);
    }

    fn disable(&self, rcc: &mut RccRegisters) {
        let s = self.slot();
        rcc.modify_bit(RegisterKind::Enable, s.bus, s.enable_bit, false);
    }
}

impl LPEnable for Peripheral {
    fn low_power_enable(&self, rcc: &mut RccRegisters) {
        let s = self.slot();
        rcc.modify_bit(RegisterKind::LowPowerEnable, s.bus, s.enable_bit, true);
    }

    fn low_power_disable(&self, rcc: &mut RccRegisters) {
        let s = self.slot();
        rcc.modify_bit(RegisterKind::LowPowerEnable, s.bus, s.enable_bit, false);
    }
}

impl Reset for Peripheral {
    fn reset(&self, rcc: &mut RccRegisters) {
        let s = self.slot();
        rcc.modify_bit(RegisterKind::Reset, s.bus, s.reset_bit, true);
        rcc.modify_bit(RegisterKind::Reset, s.bus, s.reset_bit, false);
        proof {
            let v = old(rcc).reg(RegisterKind::Reset, s.bus);
            let m = 1u32 << s.reset_bit;
            assert((v | m) & !m == v & !m) by (bit_vector);
        }
    }
}

} // verus!
