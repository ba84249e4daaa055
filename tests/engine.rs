use dcmi_hal::config::{
    CaptureMode, DcmiConfig, DcmiInterrupt, ExtendedDataMode, FrameRateCaptureControl,
    PixelClockPolarity, Polarity,
};
use dcmi_hal::dcmi::{Dcmi, DcmiError};
use dcmi_hal::dma::Transfer;
use dcmi_hal::pins::{DataPins, Pin, SignalPins};
use dcmi_hal::rcc::{Bus, RccRegisters, RegisterKind};
use dcmi_hal::registers::{BusWrite, DcmiPeripheral};

type Signals = SignalPins<Pin<b'A', 4>, Pin<b'B', 7>, Pin<b'A', 6>>;
type Data = DataPins<
    Pin<b'C', 6>,
    Pin<b'C', 7>,
    Pin<b'E', 0>,
    Pin<b'E', 1>,
    Pin<b'E', 4>,
    Pin<b'B', 6>,
    Pin<b'E', 5>,
    Pin<b'E', 6>,
>;

fn signals() -> Signals {
    SignalPins::new(Pin::<b'A', 4>::new(), Pin::<b'B', 7>::new(), Pin::<b'A', 6>::new())
}

fn data() -> Data {
    DataPins::new_for_8_bits(
        Pin::<b'C', 6>::new(),
        Pin::<b'C', 7>::new(),
        Pin::<b'E', 0>::new(),
        Pin::<b'E', 1>::new(),
        Pin::<b'E', 4>::new(),
        Pin::<b'B', 6>::new(),
        Pin::<b'E', 5>::new(),
        Pin::<b'E', 6>::new(),
    )
}

fn engine(config: DcmiConfig, rcc: &mut RccRegisters) -> Dcmi<Data, Signals> {
    let transfer = Transfer::new(vec![0u32; 16]);
    match Dcmi::init(data(), signals(), transfer, config, DcmiPeripheral::new(), rcc) {
        Ok(d) => d,
        Err(_) => panic!("init failed"),
    }
}

#[test]
fn bundles_from_capable_pins() {
    let _s = SignalPins::new(Pin::<b'H', 8>::new(), Pin::<b'I', 5>::new(), Pin::<b'A', 6>::new());
    let _d = DataPins::new_for_8_bits(
        Pin::<b'A', 9>::new(),
        Pin::<b'A', 10>::new(),
        Pin::<b'C', 8>::new(),
        Pin::<b'C', 9>::new(),
        Pin::<b'C', 11>::new(),
        Pin::<b'I', 4>::new(),
        Pin::<b'B', 8>::new(),
        Pin::<b'B', 9>::new(),
    );
}

#[test]
fn init_writes_control_once_with_all_fields() {
    let config = DcmiConfig::default()
        .ext_data_mode(ExtendedDataMode::Bit12)
        .frame_capt_ctrl(FrameRateCaptureControl::EverySecond)
        .vertical_sync_polarity(Polarity::ActiveHigh)
        .horizontal_sync_polarity(Polarity::ActiveLow)
        .pixel_clock_polarity(PixelClockPolarity::RisingEdge)
        .embedded_sync(true)
        .crop(true)
        .attach_interrupt(DcmiInterrupt::Frame)
        .attach_interrupt(DcmiInterrupt::Overrun);
    let mut rcc = RccRegisters::new();
    let d = engine(config, &mut rcc);
    let expected = vec![
        BusWrite::ControlReset,
        BusWrite::Control(0x09B4),
        BusWrite::InterruptEnable(0x03),
    ];
    assert_eq!(d.peripheral().writes(), &expected);
    let control_writes = d
        .peripheral()
        .writes()
        .iter()
        .filter(|w| matches!(w, BusWrite::Control(_)))
        .count();
    assert_eq!(control_writes, 1);
    assert_eq!(d.peripheral().control(), 0x09B4);
    assert_eq!(d.peripheral().interrupt_enable(), 0x03);
    assert!(!d.transfer().is_enabled());
    assert_eq!(d.config(), config);
}

#[test]
fn init_default_configuration_word() {
    let mut rcc = RccRegisters::new();
    let d = engine(DcmiConfig::default(), &mut rcc);
    assert_eq!(d.peripheral().control(), 0);
    let all = DcmiConfig::default()
        .ext_data_mode(ExtendedDataMode::Bit14)
        .frame_capt_ctrl(FrameRateCaptureControl::EveryFourth)
        .vertical_sync_polarity(Polarity::ActiveHigh)
        .horizontal_sync_polarity(Polarity::ActiveHigh)
        .pixel_clock_polarity(PixelClockPolarity::RisingEdge)
        .embedded_sync(true)
        .jpeg(true)
        .crop(true);
    let e = engine(all, &mut rcc);
    assert_eq!(e.peripheral().control(), 0x0EFC);
}

#[test]
fn init_enables_camera_clock() {
    let mut rcc = RccRegisters::new();
    let _d = engine(DcmiConfig::default(), &mut rcc);
    assert_eq!(rcc.register(RegisterKind::Enable, Bus::Ahb2), 0x1);
    assert_eq!(rcc.register(RegisterKind::Enable, Bus::Ahb1), 0);
    assert_eq!(rcc.writes().len(), 1);
}

#[test]
fn init_rejects_running_transfer() {
    let mut other = DcmiPeripheral::new();
    let mut transfer = Transfer::new(vec![0u32; 4]);
    transfer.start_stream(&mut other);
    let mut rcc = RccRegisters::new();
    let r = Dcmi::init(data(), signals(), transfer, DcmiConfig::default(), DcmiPeripheral::new(), &mut rcc);
    assert_eq!(r.err(), Some(DcmiError::AlreadyActive));
    assert_eq!(rcc.writes().len(), 0);
    assert_eq!(rcc.register(RegisterKind::Enable, Bus::Ahb2), 0);
}

#[test]
fn start_continuous_orders_mode_enable_stream() {
    let mut rcc = RccRegisters::new();
    let config = DcmiConfig::default().jpeg(true);
    let mut d = engine(config, &mut rcc);
    d.start();
    let w = d.peripheral().writes();
    assert_eq!(w.len(), 6);
    assert_eq!(w[3], BusWrite::Control(0x0008));
    assert_eq!(w[4], BusWrite::Control(0x4008));
    assert_eq!(w[5], BusWrite::DmaStreamEnable);
    assert!(d.transfer().is_enabled());
    assert_eq!(d.peripheral().control(), 0x4008);
}

#[test]
fn start_snapshot_orders_mode_enable_stream() {
    let mut rcc = RccRegisters::new();
    let config = DcmiConfig::default().capture_mode(CaptureMode::Snapshot);
    let mut d = engine(config, &mut rcc);
    d.start();
    let w = d.peripheral().writes();
    assert_eq!(w.len(), 6);
    assert_eq!(w[3], BusWrite::Control(0x0002));
    assert_eq!(w[4], BusWrite::Control(0x4002));
    assert_eq!(w[5], BusWrite::DmaStreamEnable);
    assert!(d.transfer().is_enabled());
}

#[test]
fn start_keeps_buffer() {
    let mut rcc = RccRegisters::new();
    let transfer = Transfer::new(vec![7u32, 8, 9]);
    let r = Dcmi::init(data(), signals(), transfer, DcmiConfig::default(), DcmiPeripheral::new(), &mut rcc);
    let mut d = match r {
        Ok(d) => d,
        Err(_) => panic!("init failed"),
    };
    d.start();
    assert_eq!(d.transfer().buffer(), &vec![7u32, 8, 9]);
}

#[test]
fn clear_all_writes_0x1f() {
    let mut rcc = RccRegisters::new();
    let config = DcmiConfig::default().attach_interrupt(DcmiInterrupt::Line);
    let mut d = engine(config, &mut rcc);
    d.clear_interrupt(DcmiInterrupt::All);
    assert_eq!(d.peripheral().writes().last(), Some(&BusWrite::InterruptClear(0x1F)));
    d.start();
    d.clear_interrupt(DcmiInterrupt::All);
    assert_eq!(d.peripheral().writes().last(), Some(&BusWrite::InterruptClear(0x1F)));
}

#[test]
fn clear_line_writes_only_its_bit() {
    let mut rcc = RccRegisters::new();
    let mut d = engine(DcmiConfig::default(), &mut rcc);
    let control = d.peripheral().control();
    d.clear_interrupt(DcmiInterrupt::Line);
    assert_eq!(d.peripheral().writes().last(), Some(&BusWrite::InterruptClear(0x10)));
    assert_eq!(d.peripheral().control(), control);
}

#[test]
fn clear_each_single_kind() {
    let mut rcc = RccRegisters::new();
    let mut d = engine(DcmiConfig::default(), &mut rcc);
    let kinds = [
        (DcmiInterrupt::Frame, 0x01u32),
        (DcmiInterrupt::Overrun, 0x02),
        (DcmiInterrupt::Error, 0x04),
        (DcmiInterrupt::VSync, 0x08),
    ];
    for (k, bits) in kinds {
        d.clear_interrupt(k);
        assert_eq!(d.peripheral().writes().last(), Some(&BusWrite::InterruptClear(bits)));
    }
}
