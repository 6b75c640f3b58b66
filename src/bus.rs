//! The serial bus configuration and the command/data transport built on it.
use vstd::prelude::*;
use crate::broker::{Peripherals, Pin, SpiHost, GPIO_COUNT};

verus! {

/// Fastest clock the bus controller can drive, in Hz.
pub const MAX_BAUDRATE_HZ: u32 = 80_000_000;

/// Clock the display is driven at, in Hz.
pub const DISPLAY_BAUDRATE_HZ: u32 = 26_000_000;

/// Clock polarity and phase.
#[derive(Clone, Copy, Debug, PartialEq, Eq, Structural)]
pub enum SpiMode {
    Mode0,
    Mode1,
    Mode2,
    Mode3,
}

/// The bus could not be configured.
#[derive(Clone, Copy, Debug, PartialEq, Eq, Structural)]
pub enum BusConfigError {
    /// Two bus or transport lines were given the same pin.
    SharedPin,
    /// The clock is zero or faster than the controller can drive.
    UnsupportedFrequency,
    /// The bus controller was already handed out.
    ControllerUnavailable,
    /// The clock or data-out pin does not exist or serves another role.
    InvalidPin,
    /// The bus driver refused the configuration.
    DriverRefused,
}

/// Whether the controller can drive a clock of `hz`.
pub open spec fn frequency_supported(hz: u32) -> bool {
    0 < hz <= MAX_BAUDRATE_HZ
}

/// Why a bus cannot be configured from the controller (if `controller_free`)
/// and the pins `free`, with clock pin `sclk`, data-out pin `sdo` and a clock
/// of `hz`: checked in that order.
pub open spec fn bus_error(free: Set<nat>, controller_free: bool, sclk: u8, sdo: u8, hz: u32) -> Option<
    BusConfigError,
> {
    if !controller_free {
        Some(BusConfigError::ControllerUnavailable)
    } else if sclk >= GPIO_COUNT || !free.contains(sclk as nat) {
        Some(BusConfigError::InvalidPin)
    } else if sdo == sclk {
        Some(BusConfigError::SharedPin)
    } else if sdo >= GPIO_COUNT || !free.contains(sdo as nat) {
        Some(BusConfigError::InvalidPin)
    } else if !frequency_supported(hz) {
        Some(BusConfigError::UnsupportedFrequency)
    } else {
        None
    }
}

/// A configured bus: clock and data-out pins, no data-in, no chip select.
#[derive(Debug)]
pub struct BusConfig {
    host: SpiHost,
    sclk: Pin,
    sdo: Pin,
    baudrate_hz: u32,
    mode: SpiMode,
}

impl BusConfig {
    pub closed spec fn sclk_index(&self) -> nat {
        self.sclk.spec_index()
    }

    pub closed spec fn sdo_index(&self) -> nat {
        self.sdo.spec_index()
    }

    pub closed spec fn spec_baudrate(&self) -> u32 {
        self.baudrate_hz
    }

    pub closed spec fn spec_mode(&self) -> SpiMode {
        self.mode
    }

    /// Configures the bus; on failure the pins and controller are consumed,
    /// so no partial bus is left for reuse.
    pub fn configure(host: SpiHost, sclk: Pin, sdo: Pin, baudrate_hz: u32, mode: SpiMode) -> (r:
        Result<BusConfig, BusConfigError>)
        ensures
            sclk.spec_index() == sdo.spec_index() ==> r == Err::<BusConfig, BusConfigError>(
                BusConfigError::SharedPin,
            ),
            sclk.spec_index() != sdo.spec_index() && !frequency_supported(baudrate_hz) ==> r
                == Err::<BusConfig, BusConfigError>(BusConfigError::UnsupportedFrequency),
            r.is_ok() <==> sclk.spec_index() != sdo.spec_index() && frequency_supported(
                baudrate_hz,
            ),
            r.is_ok() ==> r->Ok_0.sclk_index() == sclk.spec_index() && r->Ok_0.sdo_index()
                == sdo.spec_index() && r->Ok_0.spec_baudrate() == baudrate_hz
                && r->Ok_0.spec_mode() == mode,
    {
        if sclk.index() == sdo.index() {
            return Err(BusConfigError::SharedPin);
        }
        if baudrate_hz == 0 || baudrate_hz > MAX_BAUDRATE_HZ {
            return Err(BusConfigError::UnsupportedFrequency);
        }
        Ok(BusConfig { host, sclk, sdo, baudrate_hz, mode })
    }

    /// Claims the bus controller and the clock and data-out pins from
    /// `periph` and configures the bus. What was claimed before a failure is
    /// consumed with it, so no partial bus is left for reuse.
    pub fn claim(periph: &mut Peripherals, sclk: u8, sdo: u8, baudrate_hz: u32, mode: SpiMode) -> (r:
        Result<BusConfig, BusConfigError>)
        requires
            old(periph).wf(),
        ensures
            final(periph).wf(),
            r.is_ok() <==> bus_error(
                old(periph).free(),
                old(periph).spi2_available(),
                sclk,
                sdo,
                baudrate_hz,
            ) is None,
            r.is_err() ==> Some(r->Err_0) == bus_error(
                old(periph).free(),
                old(periph).spi2_available(),
                sclk,
                sdo,
                baudrate_hz,
            ),
            r.is_ok() ==> r->Ok_0.sclk_index() == sclk && r->Ok_0.sdo_index() == sdo
                && r->Ok_0.spec_baudrate() == baudrate_hz && r->Ok_0.spec_mode() == mode
                && final(periph).free() == old(periph).free().remove(sclk as nat).remove(
                sdo as nat,
            ),
    {
        let host = match periph.take_spi2() {
            Some(h) => h,
            None => return Err(BusConfigError::ControllerUnavailable),
        };
        let clk = match periph.take_pin(sclk) {
            Ok(p) => p,
            Err(_) => return Err(BusConfigError::InvalidPin),
        };
        if sdo == sclk {
            return Err(BusConfigError::SharedPin);
        }
        let out = match periph.take_pin(sdo) {
            Ok(p) => p,
            Err(_) => return Err(BusConfigError::InvalidPin),
        };
        BusConfig::configure(host, clk, out, baudrate_hz, mode)
    }

    /// Clock pin index.
    pub fn sclk(&self) -> (i: u8)
        ensures
            i as nat == self.sclk_index(),
    {
        self.sclk.index()
    }

    /// Data-out pin index.
    pub fn sdo(&self) -> (i: u8)
        ensures
            i as nat == self.sdo_index(),
    {
        self.sdo.index()
    }

    /// Clock rate in Hz.
    pub fn baudrate_hz(&self) -> (hz: u32)
        ensures
            hz == self.spec_baudrate(),
    {
        self.baudrate_hz
    }

    /// Clock polarity and phase.
    pub fn mode(&self) -> (m: SpiMode)
        ensures
            m == self.spec_mode(),
    {
        self.mode
    }
}

/// A command/data channel: the bus plus the data/command select line.
#[derive(Debug)]
pub struct Transport {
    bus: BusConfig,
    dc: Pin,
}

impl Transport {
    pub closed spec fn dc_index(&self) -> nat {
        self.dc.spec_index()
    }

    pub closed spec fn bus(&self) -> &BusConfig {
        &self.bus
    }

    /// Joins a configured bus with its data/command select line, which must
    /// be neither of the bus's own pins.
    pub fn new(bus: BusConfig, dc: Pin) -> (r: Result<Transport, BusConfigError>)
        ensures
            r.is_ok() <==> dc.spec_index() != bus.sclk_index() && dc.spec_index()
                != bus.sdo_index(),
            r.is_err() ==> r == Err::<Transport, BusConfigError>(BusConfigError::SharedPin),
            r.is_ok() ==> r->Ok_0.dc_index() == dc.spec_index() && r->Ok_0.bus().sclk_index()
                == bus.sclk_index() && r->Ok_0.bus().sdo_index() == bus.sdo_index()
                && r->Ok_0.bus().spec_baudrate() == bus.spec_baudrate()
                && r->Ok_0.bus().spec_mode() == bus.spec_mode(),
    {
        let d = dc.index();
        if d == bus.sclk() || d == bus.sdo() {
            return Err(BusConfigError::SharedPin);
        }
        Ok(Transport { bus, dc })
    }
}

} // verus!
