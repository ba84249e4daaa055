use dcmi_hal::config::{
    CaptureMode, DcmiConfig, DcmiInterrupt, ExtendedDataMode, FrameRateCaptureControl,
    PixelClockPolarity, Polarity,
};

#[test]
fn interrupt_bits_table() {
    assert_eq!(DcmiInterrupt::Line.bits(), 0x10);
    assert_eq!(DcmiInterrupt::VSync.bits(), 0x08);
    assert_eq!(DcmiInterrupt::Error.bits(), 0x04);
    assert_eq!(DcmiInterrupt::Overrun.bits(), 0x02);
    assert_eq!(DcmiInterrupt::Frame.bits(), 0x01);
    assert_eq!(DcmiInterrupt::All.bits(), 0x1F);
}

#[test]
fn all_is_union_of_single_kinds() {
    let union = DcmiInterrupt::Line.bits()
        | DcmiInterrupt::VSync.bits()
        | DcmiInterrupt::Error.bits()
        | DcmiInterrupt::Overrun.bits()
        | DcmiInterrupt::Frame.bits();
    assert_eq!(union, DcmiInterrupt::All.bits());
}

#[test]
fn default_configuration() {
    let c = DcmiConfig::default();
    assert_eq!(c.ext_data_mode, ExtendedDataMode::Bit8);
    assert_eq!(c.frame_capt_ctrl, FrameRateCaptureControl::All);
    assert_eq!(c.vertical_sync_polarity, Polarity::ActiveLow);
    assert_eq!(c.horizontal_sync_polarity, Polarity::ActiveLow);
    assert_eq!(c.pixel_clock_polarity, PixelClockPolarity::FallingEdge);
    assert!(!c.embedded_sync);
    assert!(!c.jpeg);
    assert!(!c.crop);
    assert_eq!(c.capture_mode, CaptureMode::Continuous);
    assert_eq!(c.interrupt_raw, 0);
}

#[test]
fn attach_frame_then_vsync() {
    let c = DcmiConfig::default()
        .attach_interrupt(DcmiInterrupt::Frame)
        .attach_interrupt(DcmiInterrupt::VSync);
    assert_eq!(c.interrupt_raw, 0x09);
}

#[test]
fn attach_twice_is_idempotent() {
    let c = DcmiConfig::default()
        .attach_interrupt(DcmiInterrupt::Frame)
        .attach_interrupt(DcmiInterrupt::Frame);
    assert_eq!(c.interrupt_raw, 0x01);
}

#[test]
fn attach_order_does_not_matter() {
    let a = DcmiConfig::default()
        .attach_interrupt(DcmiInterrupt::Line)
        .attach_interrupt(DcmiInterrupt::Overrun);
    let b = DcmiConfig::default()
        .attach_interrupt(DcmiInterrupt::Overrun)
        .attach_interrupt(DcmiInterrupt::Line);
    assert_eq!(a, b);
    assert_eq!(a.interrupt_raw, 0x12);
}

#[test]
fn attach_all_sets_every_bit() {
    let c = DcmiConfig::default()
        .attach_interrupt(DcmiInterrupt::Error)
        .attach_interrupt(DcmiInterrupt::All);
    assert_eq!(c.interrupt_raw, 0x1F);
}

#[test]
fn builder_sets_one_field_each() {
    let d = DcmiConfig::default();
    let c = d
        .ext_data_mode(ExtendedDataMode::Bit14)
        .frame_capt_ctrl(FrameRateCaptureControl::EveryFourth)
        .vertical_sync_polarity(Polarity::ActiveHigh)
        .horizontal_sync_polarity(Polarity::ActiveHigh)
        .pixel_clock_polarity(PixelClockPolarity::RisingEdge)
        .embedded_sync(true)
        .jpeg(true)
        .crop(true)
        .capture_mode(CaptureMode::Snapshot);
    assert_eq!(c.ext_data_mode, ExtendedDataMode::Bit14);
    assert_eq!(c.frame_capt_ctrl, FrameRateCaptureControl::EveryFourth);
    assert_eq!(c.vertical_sync_polarity, Polarity::ActiveHigh);
    assert_eq!(c.horizontal_sync_polarity, Polarity::ActiveHigh);
    assert_eq!(c.pixel_clock_polarity, PixelClockPolarity::RisingEdge);
    assert!(c.embedded_sync);
    assert!(c.jpeg);
    assert!(c.crop);
    assert_eq!(c.capture_mode, CaptureMode::Snapshot);
    assert_eq!(c.interrupt_raw, 0);

    let only_jpeg = d.jpeg(true);
    assert_eq!(only_jpeg, DcmiConfig { jpeg: true, ..d });
}

#[test]
fn data_mode_encoding() {
    let codes: Vec<u8> = vec![
        ExtendedDataMode::Bit8.into(),
        ExtendedDataMode::Bit10.into(),
        ExtendedDataMode::Bit12.into(),
        ExtendedDataMode::Bit14.into(),
    ];
    assert_eq!(codes, vec![0b00, 0b01, 0b10, 0b11]);
}

#[test]
fn frame_control_encoding() {
    let codes: Vec<u8> = vec![
        FrameRateCaptureControl::All.into(),
        FrameRateCaptureControl::EverySecond.into(),
        FrameRateCaptureControl::EveryFourth.into(),
    ];
    assert_eq!(codes, vec![0b00, 0b01, 0b10]);
}

#[test]
fn flag_encodings() {
    let high: bool = Polarity::ActiveHigh.into();
    let low: bool = Polarity::ActiveLow.into();
    assert!(high);
    assert!(!low);
    let rising: bool = PixelClockPolarity::RisingEdge.into();
    let falling: bool = PixelClockPolarity::FallingEdge.into();
    assert!(rising);
    assert!(!falling);
    let snapshot: bool = CaptureMode::Snapshot.into();
    let continuous: bool = CaptureMode::Continuous.into();
    assert!(snapshot);
    assert!(!continuous);
}

#[test]
fn encodings_are_stable() {
    let a: u8 = ExtendedDataMode::Bit12.into();
    let b: u8 = ExtendedDataMode::Bit12.into();
    assert_eq!(a, b);
    assert_eq!(a, 0b10);
}
