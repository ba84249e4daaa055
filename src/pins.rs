//! Pin capabilities: which pin, switched to the camera alternate function,
//! can carry which signal, and the two pin bundles that the capture engine
//! takes as proof of a correct wiring. A bundle whose pins lack a capability
//! does not type-check.

use vstd::prelude::*;
use crate::registers::DcmiPeripheral;

verus! {

/// Pin `N` of GPIO port `PORT` (an ASCII letter, `b'A'` to `b'I'`), switched
/// to alternate function 13, the camera interface.
pub struct Pin<const PORT: u8, const N: u8> {
    _af13: (),
}

impl<const PORT: u8, const N: u8> Pin<PORT, N> {
    /// Takes ownership of the pin from the GPIO layer, which has already set
    /// its alternate function.
    pub fn new() -> (r: Self) {
        Pin { _af13: () }
    }
}

/// A handle to the camera interface's register block.
pub trait Instance {}

impl Instance for DcmiPeripheral {}

pub trait DcmiD0 {}
pub trait DcmiD1 {}
pub trait DcmiD2 {}
pub trait DcmiD3 {}
pub trait DcmiD4 {}
pub trait DcmiD5 {}
pub trait DcmiD6 {}
pub trait DcmiD7 {}
pub trait DcmiD8 {}
pub trait DcmiD9 {}
pub trait DcmiD10 {}
pub trait DcmiD11 {}
pub trait DcmiD12 {}
pub trait DcmiD13 {}
pub trait DcmiHSYNC {}
pub trait DcmiVSYNC {}
pub trait DcmiPIXCLK {}

impl DcmiHSYNC for Pin<b'A', 4> {}
impl DcmiPIXCLK for Pin<b'A', 6> {}
impl DcmiHSYNC for Pin<b'H', 8> {}
impl DcmiVSYNC for Pin<b'B', 7> {}
impl DcmiVSYNC for Pin<b'I', 5> {}

impl DcmiD0 for Pin<b'A', 9> {}
impl DcmiD0 for Pin<b'C', 6> {}
impl DcmiD0 for Pin<b'H', 9> {}

impl DcmiD1 for Pin<b'A', 10> {}
impl DcmiD1 for Pin<b'C', 7> {}
impl DcmiD1 for Pin<b'H', 10> {}

impl DcmiD2 for Pin<b'C', 8> {}
impl DcmiD2 for Pin<b'E', 0> {}
impl DcmiD2 for Pin<b'H', 11> {}

impl DcmiD3 for Pin<b'C', 9> {}
impl DcmiD3 for Pin<b'E', 1> {}
impl DcmiD3 for Pin<b'H', 12> {}

impl DcmiD4 for Pin<b'C', 11> {}
impl DcmiD4 for Pin<b'E', 4> {}
impl DcmiD4 for Pin<b'H', 14> {}

impl DcmiD5 for Pin<b'B', 6> {}
impl DcmiD5 for Pin<b'I', 4> {}

impl DcmiD6 for Pin<b'B', 8> {}
impl DcmiD6 for Pin<b'E', 5> {}
impl DcmiD6 for Pin<b'I', 6> {}

impl DcmiD7 for Pin<b'B', 9> {}
impl DcmiD7 for Pin<b'E', 6> {}
impl DcmiD7 for Pin<b'I', 7> {}

impl DcmiD8 for Pin<b'C', 10> {}
impl DcmiD8 for Pin<b'I', 1> {}

impl DcmiD9 for Pin<b'C', 12> {}
impl DcmiD9 for Pin<b'I', 2> {}

impl DcmiD10 for Pin<b'B', 5> {}
impl DcmiD10 for Pin<b'I', 3> {}

impl DcmiD11 for Pin<b'D', 2> {}
impl DcmiD11 for Pin<b'H', 15> {}

impl DcmiD12 for Pin<b'F', 11> {}

impl DcmiD13 for Pin<b'G', 15> {}
impl DcmiD13 for Pin<b'I', 0> {}

/// A bundle of synchronization pins whose every pin has its capability.
pub trait DcmiSignalPins {}

/// The horizontal sync, vertical sync and pixel clock pins.
pub struct SignalPins<H, V, PXL> {
    _hsync: H,
    _vsync: V,
    _pxl: PXL,
}

impl<H: DcmiHSYNC, V: DcmiVSYNC, PXL: DcmiPIXCLK> DcmiSignalPins for SignalPins<H, V, PXL> {}

impl<H: DcmiHSYNC, V: DcmiVSYNC, PXL: DcmiPIXCLK> SignalPins<H, V, PXL> {
    pub closed spec fn hsync(&self) -> H {
        self._hsync
    }

    pub closed spec fn vsync(&self) -> V {
        self._vsync
    }

    pub closed spec fn pixel_clock(&self) -> PXL {
        self._pxl
    }

    /// Takes the three pins; each type must have its role's capability.
    pub fn new(hsync_pin: H, vsync_pin: V, pixel_clock_pin: PXL) -> (r: Self)
        ensures
            r.hsync() == hsync_pin,
            r.vsync() == vsync_pin,
            r.pixel_clock() == pixel_clock_pin,
    {
        SignalPins { _hsync: hsync_pin, _vsync: vsync_pin, _pxl: pixel_clock_pin }
    }
}

/// A bundle of data pins whose every pin has its capability.
pub trait DcmiDataPins {}

/// The data pins `D0` to `D7` of the 8-bit bus.
pub struct DataPins<D0, D1, D2, D3, D4, D5, D6, D7> {
    _data_pin0: D0,
    _data_pin1: D1,
    _data_pin2: D2,
    _data_pin3: D3,
    _data_pin4: D4,
    _data_pin5: D5,
    _data_pin6: D6,
    _data_pin7: D7,
}

impl<
    D0: DcmiD0,
    D1: DcmiD1,
    D2: DcmiD2,
    D3: DcmiD3,
    D4: DcmiD4,
    D5: DcmiD5,
    D6: DcmiD6,
    D7: DcmiD7,
> DcmiDataPins for DataPins<D0, D1, D2, D3, D4, D5, D6, D7> {}

impl<
    D0: DcmiD0,
    D1: DcmiD1,
    D2: DcmiD2,
    D3: DcmiD3,
    D4: DcmiD4,
    D5: DcmiD5,
    D6: DcmiD6,
    D7: DcmiD7,
> DataPins<D0, D1, D2, D3, D4, D5, D6, D7> {
    /// The pins held, in bus order.
    pub closed spec fn pins(&self) -> (D0, D1, D2, D3, D4, D5, D6, D7) {
        (
            self._data_pin0,
            self._data_pin1,
            self._data_pin2,
            self._data_pin3,
            self._data_pin4,
            self._data_pin5,
            self._data_pin6,
            self._data_pin7,
        )
    }

    /// Takes the eight pins of an 8-bit bus; the pin for line `k` must have
    /// the capability `DcmiDk`.
    pub fn new_for_8_bits(
        data_pin0: D0,
        data_pin1: D1,
        data_pin2: D2,
        data_pin3: D3,
        data_pin4: D4,
        data_pin5: D5,
        data_pin6: D6,
        data_pin7: D7,
    ) -> (r: Self)
        ensures
            r.pins() == (
                data_pin0,
                data_pin1,
                data_pin2,
                data_pin3,
                data_pin4,
                data_pin5,
                data_pin6,
                data_pin7,
            ),
    {
        DataPins {
            _data_pin0: data_pin0,
            _data_pin1: data_pin1,
            _data_pin2: data_pin2,
            _data_pin3: data_pin3,
            _data_pin4: data_pin4,
            _data_pin5: data_pin5,
            _data_pin6: data_pin6,
            _data_pin7: data_pin7,
        }
    }
}

} // verus!
