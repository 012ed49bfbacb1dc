//! The serial peripheral bus: the records handed to the vendor driver for a
//! bus, for a device on it and for one transaction, and what the driver's
//! status makes of each call.
//!
//! Nothing here touches hardware. The caller hands each record to the driver
//! and brings back the status that the driver returned.

use crate::errors::{Error, EspError, ESP_OK};
use vstd::prelude::*;

verus! {

/// The pin number that stands for "no pin assigned".
pub const NO_PIN: i32 = -1;

/// The DMA channel with which every bus is initialized.
pub const DMA_CHANNEL: i32 = 1;

/// The pin number written into a record for an optional pin.
pub open spec fn pin_or_unassigned(pin: Option<i32>) -> i32 {
    match pin {
        Some(number) => number,
        None => NO_PIN,
    }
}

/// A physical bus instance.
#[derive(Clone, Copy, Debug, PartialEq, Eq, Structural)]
pub enum Which {
    HSpi,
    VSpi,
}

/// Reads `esp_idf_sys::spi_host_device_t_HSPI_HOST`, which the bindings
/// define as the constant 1.
#[verifier::external_body]
fn hspi_host() -> (host: u32)
    ensures
        host == 1,
{
    esp_idf_sys::spi_host_device_t_HSPI_HOST
}

/// Reads `esp_idf_sys::spi_host_device_t_VSPI_HOST`, which the bindings
/// define as the constant 2.
#[verifier::external_body]
fn vspi_host() -> (host: u32)
    ensures
        host == 2,
{
    esp_idf_sys::spi_host_device_t_VSPI_HOST
}

impl Which {
    /// The number by which the driver knows this bus.
    pub open spec fn host(self) -> u32 {
        match self {
            Which::HSpi => 1,
            Which::VSpi => 2,
        }
    }
}

impl From<Which> for u32 {
    /// The number by which the driver knows the bus.
    fn from(value: Which) -> (host: u32) {
        match value {
            Which::HSpi => hspi_host(),
            Which::VSpi => vspi_host(),
        }
    }
}

impl vstd::std_specs::convert::FromSpecImpl<Which> for u32 {
    open spec fn obeys_from_spec() -> bool {
        true
    }

    open spec fn from_spec(value: Which) -> u32 {
        value.host()
    }
}

/// The configuration record with which a bus is initialized.
#[derive(Clone, Copy, Debug, PartialEq, Eq, Structural)]
pub struct BusConfig {
    pub mosi_io_num: i32,
    pub miso_io_num: i32,
    pub sclk_io_num: i32,
    pub quadwp_io_num: i32,
    pub quadhd_io_num: i32,
    pub max_transfer_sz: i32,
    pub flags: u32,
    pub intr_flags: i32,
}

impl BusConfig {
    /// The record for a bus on the given pins: a pin that is not given is
    /// unassigned, the two quad-mode pins are always unassigned, and the
    /// transfer size and both flag words are zero, the driver's defaults.
    pub open spec fn for_pins(
        mosi_pin: Option<i32>,
        miso_pin: Option<i32>,
        clk_pin: Option<i32>,
    ) -> BusConfig {
        BusConfig {
            mosi_io_num: pin_or_unassigned(mosi_pin),
            miso_io_num: pin_or_unassigned(miso_pin),
            sclk_io_num: pin_or_unassigned(clk_pin),
            quadwp_io_num: NO_PIN,
            quadhd_io_num: NO_PIN,
            max_transfer_sz: 0,
            flags: 0,
            intr_flags: 0,
        }
    }

    /// Builds the record with which a bus is initialized.
    pub fn new(mosi_pin: Option<i32>, miso_pin: Option<i32>, clk_pin: Option<i32>) -> (config:
        BusConfig)
        ensures
            config == BusConfig::for_pins(mosi_pin, miso_pin, clk_pin),
    {
        BusConfig {
            mosi_io_num: mosi_pin.unwrap_or(NO_PIN),
            miso_io_num: miso_pin.unwrap_or(NO_PIN),
            sclk_io_num: clk_pin.unwrap_or(NO_PIN),
            quadwp_io_num: NO_PIN,
            quadhd_io_num: NO_PIN,
            max_transfer_sz: 0,
            flags: 0,
            intr_flags: 0,
        }
    }
}

/// Exclusive access to one bus that the driver has initialized.
#[derive(Debug, PartialEq, Eq)]
pub struct Master {
    which: Which,
}

impl Master {
    /// The bus that this master owns.
    pub closed spec fn bus(&self) -> Which {
        self.which
    }

    /// Makes the master of a bus from the status with which the driver
    /// answered the call that initializes it.
    ///
    /// There is a master exactly when the status is `ESP_OK`; any other
    /// status comes back unchanged as the error.
    pub fn new(which: Which, status: i32) -> (r: Result<Master, Error>)
        ensures
            status == ESP_OK ==> r is Ok && r->Ok_0.bus() == which,
            status != ESP_OK ==> r == Err::<Master, Error>(Error::Esp(EspError(status))),
    {
        match EspError(status).into_result() {
            Ok(()) => Ok(Master { which }),
            Err(error) => Err(error),
        }
    }

    /// The bus that this master owns.
    pub fn which(&self) -> (which: Which)
        ensures
            which == self.bus(),
    {
        self.which
    }
}

/// Clock polarity.
#[derive(Clone, Copy, Debug, PartialEq, Eq, Structural)]
pub enum Polarity {
    /// The clock line is low when idle.
    IdleLow,
    /// The clock line is high when idle.
    IdleHigh,
}

/// Clock phase.
#[derive(Clone, Copy, Debug, PartialEq, Eq, Structural)]
pub enum Phase {
    /// Data is captured on the first clock transition.
    CaptureOnFirstTransition,
    /// Data is captured on the second clock transition.
    CaptureOnSecondTransition,
}

/// One of the four combinations of clock polarity and phase.
#[derive(Clone, Copy, Debug, PartialEq, Eq, Structural)]
pub struct Mode {
    pub polarity: Polarity,
    pub phase: Phase,
}

impl Mode {
    /// The number by which the driver knows this mode: twice the polarity
    /// bit plus the phase bit.
    pub open spec fn number(self) -> int {
        (if self.polarity == Polarity::IdleHigh { 2int } else { 0int })
            + (if self.phase == Phase::CaptureOnSecondTransition { 1int } else { 0int })
    }

    /// The number of this mode, 0 to 3.
    pub fn to_number(self) -> (n: u8)
        ensures
            n == self.number(),
            n <= 3,
    {
        match (self.polarity, self.phase) {
            (Polarity::IdleLow, Phase::CaptureOnFirstTransition) => 0,
            (Polarity::IdleLow, Phase::CaptureOnSecondTransition) => 1,
            (Polarity::IdleHigh, Phase::CaptureOnFirstTransition) => 2,
            (Polarity::IdleHigh, Phase::CaptureOnSecondTransition) => 3,
        }
    }
}

/// The configuration record with which a device is registered on a bus.
#[derive(Clone, Copy, Debug, PartialEq, Eq, Structural)]
pub struct DeviceConfig {
    pub command_bits: u8,
    pub address_bits: u8,
    pub dummy_bits: u8,
    pub mode: u8,
    pub duty_cycle_pos: u8,
    pub cs_ena_pretrans: u8,
    pub cs_ena_posttrans: u8,
    pub clock_speed_hz: i32,
    pub input_delay_ns: i32,
    pub spics_io_num: i32,
    pub flags: u32,
    pub queue_size: i32,
}

impl DeviceConfig {
    /// Whether a clock rate fits the record's signed 32-bit field.
    pub open spec fn clock_fits(clock_speed_hz: u32) -> bool {
        clock_speed_hz <= i32::MAX
    }

    /// The record for a device with the given clock rate, mode, chip-select
    /// pin and queue depth: every other field is zero.
    pub open spec fn describes(
        self,
        clock_speed_hz: u32,
        mode: Mode,
        cs_pin: Option<i32>,
        queue_size: usize,
    ) -> bool {
        &&& self.command_bits == 0
        &&& self.address_bits == 0
        &&& self.dummy_bits == 0
        &&& self.mode == mode.number()
        &&& self.duty_cycle_pos == 0
        &&& self.cs_ena_pretrans == 0
        &&& self.cs_ena_posttrans == 0
        &&& self.clock_speed_hz == clock_speed_hz
        &&& self.input_delay_ns == 0
        &&& self.spics_io_num == pin_or_unassigned(cs_pin)
        &&& self.flags == 0
        &&& self.queue_size == queue_size
    }

    /// Builds the record with which a device is registered.
    ///
    /// A clock rate above `i32::MAX` is refused with
    /// `Error::InvalidClockSpeed`: there is then no record, and so nothing to
    /// hand to the driver. Every other clock rate gives the record.
    pub fn new(clock_speed_hz: u32, mode: Mode, cs_pin: Option<i32>, queue_size: usize) -> (r:
        Result<DeviceConfig, Error>)
        requires
            queue_size <= i32::MAX,
        ensures
            Self::clock_fits(clock_speed_hz) ==> r is Ok && r->Ok_0.describes(
                clock_speed_hz,
                mode,
                cs_pin,
                queue_size,
            ),
            !Self::clock_fits(clock_speed_hz) ==> r == Err::<DeviceConfig, Error>(
                Error::InvalidClockSpeed,
            ),
    {
        if clock_speed_hz > 0x7fff_ffff {
            return Err(Error::InvalidClockSpeed);
        }
        Ok(
            DeviceConfig {
                command_bits: 0,
                address_bits: 0,
                dummy_bits: 0,
                mode: mode.to_number(),
                duty_cycle_pos: 0,
                cs_ena_pretrans: 0,
                cs_ena_posttrans: 0,
                clock_speed_hz: clock_speed_hz as i32,
                input_delay_ns: 0,
                spics_io_num: cs_pin.unwrap_or(NO_PIN),
                flags: 0,
                queue_size: queue_size as i32,
            },
        )
    }
}

/// One blocking exchange of bits with a device, as the driver takes it.
///
/// The record holds no buffer. The transmit buffer is the caller's; `receive`
/// says whether the bytes clocked in are stored over it.
#[derive(Clone, Copy, Debug, PartialEq, Eq, Structural)]
pub struct Transaction {
    pub flags: u32,
    pub cmd: u16,
    pub addr: u64,
    /// Length of the exchange in bits.
    pub length: usize,
    /// Number of bits received; zero means as many as are sent.
    pub rxlength: usize,
    /// Whether the transmit buffer is the receive buffer too. When it is not,
    /// the transaction has no receive buffer.
    pub receive: bool,
}

impl Transaction {
    /// The transaction that sends `bytes` bytes, and stores what comes back
    /// exactly when `receive` is set.
    pub open spec fn of(bytes: nat, receive: bool) -> Transaction {
        Transaction {
            flags: 0,
            cmd: 0,
            addr: 0,
            length: (bytes * 8) as usize,
            rxlength: 0,
            receive,
        }
    }
}

/// One peripheral registered on a bus, which it cannot outlive.
#[derive(Debug)]
pub struct Device<'a> {
    device: usize,
    bus: &'a Master,
}

impl<'a> Device<'a> {
    /// The handle under which the driver knows this device.
    pub closed spec fn handle_spec(&self) -> usize {
        self.device
    }

    /// The master of the bus on which this device is registered.
    pub closed spec fn master(&self) -> Master {
        *self.bus
    }

    /// Makes a device from the answer of the driver to the call that
    /// registers it on `bus`: the handle that the call filled in, and its
    /// status.
    ///
    /// There is a device exactly when the status is `ESP_OK`: it holds the
    /// handle and borrows the bus. Any other status comes back unchanged as
    /// the error.
    pub fn new(bus: &'a Master, device: usize, status: i32) -> (r: Result<Device<'a>, Error>)
        ensures
            status == ESP_OK ==> r is Ok && r->Ok_0.handle_spec() == device && r->Ok_0.master()
                == *bus,
            status != ESP_OK ==> r == Err::<Device<'a>, Error>(Error::Esp(EspError(status))),
    {
        match EspError(status).into_result() {
            Ok(()) => Ok(Device { device, bus }),
            Err(error) => Err(error),
        }
    }

    /// The handle under which the driver knows this device.
    #[verifier::when_used_as_spec(handle_spec)]
    pub fn handle(&self) -> (device: usize)
        ensures
            device == self.handle_spec(),
    {
        self.device
    }

    /// The bus on which this device is registered.
    pub fn bus(&self) -> (bus: &'a Master)
        ensures
            *bus == self.master(),
    {
        self.bus
    }

    /// The transaction that sends `words` and stores nothing of what comes
    /// back: eight bits for each byte, no receive buffer.
    pub fn write(&mut self, words: &[u8]) -> (transaction: Transaction)
        requires
            words@.len() * 8 <= usize::MAX,
        ensures
            transaction == Transaction::of(words@.len(), false),
            *final(self) == *old(self),
    {
        Transaction {
            flags: 0,
            cmd: 0,
            addr: 0,
            length: words.len() * 8,
            rxlength: 0,
            receive: false,
        }
    }

    /// The transaction that sends `words` and stores what comes back over
    /// them: eight bits for each byte, received in place.
    pub fn transfer(&mut self, words: &[u8]) -> (transaction: Transaction)
        requires
            words@.len() * 8 <= usize::MAX,
        ensures
            transaction == Transaction::of(words@.len(), true),
            *final(self) == *old(self),
    {
        Transaction {
            flags: 0,
            cmd: 0,
            addr: 0,
            length: words.len() * 8,
            rxlength: 0,
            receive: true,
        }
    }

    /// What a transfer returns, from the status with which the driver
    /// answered its transaction: the buffer itself, which now holds the bytes
    /// that were clocked in, exactly when the status is `ESP_OK`; any other
    /// status unchanged as the error.
    pub fn received<'w>(words: &'w [u8], status: i32) -> (r: Result<&'w [u8], Error>)
        ensures
            status == ESP_OK ==> r == Ok::<&'w [u8], Error>(words),
            status != ESP_OK ==> r == Err::<&'w [u8], Error>(Error::Esp(EspError(status))),
    {
        match EspError(status).into_result() {
            Ok(()) => Ok(words),
            Err(error) => Err(error),
        }
    }
}

/// No two modes share a number, and every number is one of 0, 1, 2 and 3:
/// the driver can tell the four modes apart.
pub proof fn mode_numbers_distinct(a: Mode, b: Mode)
    ensures
        0 <= a.number() <= 3,
        a.number() == b.number() <==> a == b,
{
}

/// No two buses share a host number: a call made for one bus is never taken
/// for a call made for the other.
pub proof fn hosts_distinct(a: Which, b: Which)
    ensures
        a.host() == b.host() <==> a == b,
{
}

/// A pin that is given stands in a record as itself; the record holds
/// `NO_PIN` exactly when no pin was given or `NO_PIN` itself was.
pub proof fn unassigned_is_not_a_pin(pin: Option<i32>)
    ensures
        pin_or_unassigned(pin) == NO_PIN <==> pin is None || pin == Some(NO_PIN),
        pin is Some && pin->Some_0 >= 0 ==> pin_or_unassigned(pin) == pin->Some_0
            && pin_or_unassigned(pin) != NO_PIN,
{
}

} // verus!
