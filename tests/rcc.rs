use dcmi_hal::rcc::{
    Bus, Enable, LPEnable, Peripheral, RccRegisters, RccWrite, RegisterKind, Reset, Slot,
};

#[test]
fn table_entries() {
    assert_eq!(Peripheral::Dcmi.slot(), Slot { bus: Bus::Ahb2, enable_bit: 0, reset_bit: 0 });
    assert_eq!(Peripheral::Dma2.slot(), Slot { bus: Bus::Ahb1, enable_bit: 22, reset_bit: 22 });
    assert_eq!(Peripheral::Adc3.slot(), Slot { bus: Bus::Apb2, enable_bit: 10, reset_bit: 8 });
    assert_eq!(Peripheral::Uart8.slot(), Slot { bus: Bus::Apb1, enable_bit: 31, reset_bit: 31 });
}

#[test]
fn enable_and_disable() {
    let mut rcc = RccRegisters::new();
    Peripheral::GpioC.enable(&mut rcc);
    Peripheral::Dma1.enable(&mut rcc);
    assert_eq!(rcc.register(RegisterKind::Enable, Bus::Ahb1), (1 << 2) | (1 << 21));
    Peripheral::GpioC.disable(&mut rcc);
    assert_eq!(rcc.register(RegisterKind::Enable, Bus::Ahb1), 1 << 21);
    assert_eq!(rcc.register(RegisterKind::Enable, Bus::Apb1), 0);
    assert_eq!(rcc.writes().len(), 3);
}

#[test]
fn low_power_enable_and_disable() {
    let mut rcc = RccRegisters::new();
    Peripheral::Spi1.low_power_enable(&mut rcc);
    assert_eq!(rcc.register(RegisterKind::LowPowerEnable, Bus::Apb2), 1 << 12);
    assert_eq!(rcc.register(RegisterKind::Enable, Bus::Apb2), 0);
    Peripheral::Spi1.low_power_disable(&mut rcc);
    assert_eq!(rcc.register(RegisterKind::LowPowerEnable, Bus::Apb2), 0);
}

#[test]
fn reset_pulses_the_bit() {
    let mut rcc = RccRegisters::new();
    Peripheral::Adc2.reset(&mut rcc);
    let expected = vec![
        RccWrite { kind: RegisterKind::Reset, bus: Bus::Apb2, value: 1 << 8 },
        RccWrite { kind: RegisterKind::Reset, bus: Bus::Apb2, value: 0 },
    ];
    assert_eq!(rcc.writes(), &expected);
    assert_eq!(rcc.register(RegisterKind::Reset, Bus::Apb2), 0);
}
