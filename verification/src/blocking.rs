//! The plain blocking interface to the sensor, without cached configuration:
//! every change of the configuration register reads it first and writes back
//! a modified value. Register values travel low byte first, in both directions.
use crate::regs::{REG_ALS, REG_ALS_CONFIG, REG_ALS_INT, REG_DEVICE_ID, REG_WHITE};
use vstd::prelude::*;

verus! {

/// What can go wrong on the bus.
#[derive(Debug, Clone, Copy, PartialEq, Eq, Structural)]
pub enum Error {
    I2CReadError,
    I2CWriteError,
}

impl Error {
    /// The human-readable message of the error.
    pub fn message(&self) -> (r: &'static str)
        ensures
            *self == Error::I2CReadError ==> r@ == "I2C read failure"@,
            *self == Error::I2CWriteError ==> r@ == "I2C write failure"@,
    {
        match self {
            Error::I2CReadError => "I2C read failure",
            Error::I2CWriteError => "I2C write failure",
        }
    }
}

/// The device identification split into its two codes.
#[derive(Debug)]
pub struct DeviceID {
    pub option_code: u8,
    pub device_id: u8,
}

impl From<u16> for DeviceID {
    fn from(value: u16) -> (r: Self) {
        DeviceID { option_code: (value >> 8) as u8, device_id: (value & 0xff) as u8 }
    }
}

impl vstd::std_specs::convert::FromSpecImpl<u16> for DeviceID {
    open spec fn obeys_from_spec() -> bool {
        true
    }

    open spec fn from_spec(v: u16) -> DeviceID {
        DeviceID { option_code: (v >> 8) as u8, device_id: (v & 0xff) as u8 }
    }
}

/// The two threshold flags of the interrupt status register.
#[derive(Debug, Clone, Copy, PartialEq, Eq, Structural)]
pub struct IntStatus {
    pub int_th_low: bool,
    pub int_th_high: bool,
}

impl From<u16> for IntStatus {
    fn from(val: u16) -> (r: Self) {
        IntStatus { int_th_low: (val >> 15) & 1 > 0, int_th_high: (val >> 14) & 1 > 0 }
    }
}

impl vstd::std_specs::convert::FromSpecImpl<u16> for IntStatus {
    open spec fn obeys_from_spec() -> bool {
        true
    }

    open spec fn from_spec(v: u16) -> IntStatus {
        IntStatus { int_th_low: (v >> 15) & 1 > 0, int_th_high: (v >> 14) & 1 > 0 }
    }
}

/// The bytes of a write transaction: the register address, then the value low byte first.
pub open spec fn spec_write_frame(reg: u8, val: u16) -> Seq<u8> {
    seq![reg, (val % 256) as u8, (val / 256) as u8]
}

/// The register value carried by the two bytes of a read transaction, low byte first.
pub open spec fn spec_read_value(b0: u8, b1: u8) -> u16 {
    (b1 * 256 + b0) as u16
}

/// A VEML6030 on a bus `I2C` at address `addr`.
#[derive(Debug)]
pub struct Veml6030<I2C> {
    i2c: I2C,
    addr: u8,
}

impl<I2C> Veml6030<I2C> {
    pub closed spec fn spec_i2c(&self) -> I2C {
        self.i2c
    }

    pub closed spec fn spec_addr(&self) -> u8 {
        self.addr
    }

    /// The sensor at `addr` on `bus`.
    pub fn new(bus: I2C, addr: u8) -> (s: Self)
        ensures
            s.spec_i2c() == bus,
            s.spec_addr() == addr,
    {
        Veml6030 { i2c: bus, addr: addr }
    }

    /// The bus address of the sensor.
    pub fn addr(&self) -> (r: u8)
        ensures
            r == self.spec_addr(),
    {
        self.addr
    }

    /// The bus the sensor sits on, for the caller to carry out transactions.
    pub fn bus(&mut self) -> (r: &mut I2C)
        ensures
            *r == old(self).spec_i2c(),
            final(self).spec_i2c() == *final(r),
            final(self).spec_addr() == old(self).spec_addr(),
    {
        &mut self.i2c
    }

    /// Gives the bus back, ending the use of the sensor.
    pub fn release(self) -> (r: I2C)
        ensures
            r == self.spec_i2c(),
    {
        self.i2c
    }

    /// The bytes that a read transaction starting at register `start_reg`
    /// sends before the sensor answers: the register address alone.
    pub fn read_request(start_reg: u8) -> (r: [u8; 1])
        ensures
            r@ == seq![start_reg],
    {
        let request = [start_reg];
        assert(request@ =~= seq![start_reg]);
        request
    }

    /// The register read for the ALS output.
    pub fn als_reg() -> (r: u8)
        ensures
            r == REG_ALS,
    {
        REG_ALS
    }

    /// The register read for the white channel output.
    pub fn white_reg() -> (r: u8)
        ensures
            r == REG_WHITE,
    {
        REG_WHITE
    }

    /// The register read for the device identification.
    pub fn device_id_reg() -> (r: u8)
        ensures
            r == REG_DEVICE_ID,
    {
        REG_DEVICE_ID
    }

    /// The register read for the interrupt status.
    pub fn int_status_reg() -> (r: u8)
        ensures
            r == REG_ALS_INT,
    {
        REG_ALS_INT
    }

    /// The register read back and rewritten by stop and start: the configuration.
    pub fn config_reg() -> (r: u8)
        ensures
            r == REG_ALS_CONFIG,
    {
        REG_ALS_CONFIG
    }

    /// The register value in the two bytes that a read transaction returns.
    pub fn decode_read(buf: [u8; 2]) -> (r: u16)
        ensures
            r == spec_read_value(buf[0], buf[1]),
            r == buf[1] * 256 + buf[0],
    {
        let b0 = buf[0];
        let b1 = buf[1];
        assert(((b1 as u16) << 8) == b1 * 256) by (bit_vector);
        ((b1 as u16) << 8) + b0 as u16
    }

    /// The bytes of the write transaction that stores `val` in register `reg`.
    pub fn encode_write(reg: u8, val: u16) -> (r: [u8; 3])
        ensures
            r@ == spec_write_frame(reg, val),
    {
        assert((val & 0xff) == val % 256 && (val >> 8) == val / 256) by (bit_vector);
        let frame = [reg, (val & 0xff) as u8, (val >> 8) as u8];
        assert(frame@ =~= spec_write_frame(reg, val));
        frame
    }

    /// The configuration value that shuts the sensor down, from the value just
    /// read from the configuration register: bit 0 set.
    pub fn stop_value(current: u16) -> (r: u16)
        ensures
            r == current | 0x0001,
    {
        current | 0x0001
    }

    /// The configuration value that powers the sensor on, from the value just
    /// read from the configuration register: bit 0 cleared.
    pub fn start_value(current: u16) -> (r: u16)
        ensures
            r == current & 0xfffe,
    {
        current & 0xfffe
    }
}

/// Stopping sets bit 0 and starting clears it; no other bit changes, and a
/// start after a stop gives what a start alone gives.
pub proof fn law_stop_start_values(current: u16)
    ensures
        (current | 0x0001) % 2 == 1,
        (current & 0xfffe) % 2 == 0,
        (current | 0x0001) / 2 == current / 2,
        (current & 0xfffe) / 2 == current / 2,
        (current | 0x0001) & 0xfffe == current & 0xfffe,
        (current & 0xfffe) | 0x0001 == current | 0x0001,
{
    assert((current | 0x0001) % 2 == 1 && (current & 0xfffe) % 2 == 0 && (current | 0x0001) / 2
        == current / 2 && (current & 0xfffe) / 2 == current / 2 && (current | 0x0001) & 0xfffe
        == current & 0xfffe && (current & 0xfffe) | 0x0001 == current | 0x0001) by (bit_vector);
}

/// The threshold flags are the top two bits of the status register.
pub proof fn law_int_status_flags(v: u16)
    ensures
        <IntStatus as vstd::std_specs::convert::FromSpec<u16>>::from_spec(v).int_th_low <==> v
            >= 0x8000,
        <IntStatus as vstd::std_specs::convert::FromSpec<u16>>::from_spec(v).int_th_high <==> v
            % 0x8000 >= 0x4000,
{
    assert(((v >> 15) & 1 > 0) <==> v >= 0x8000) by (bit_vector);
    assert(((v >> 14) & 1 > 0) <==> v % 0x8000 >= 0x4000) by (bit_vector);
}

/// The option code is the high byte of the identification register and the
/// identification code the low byte.
pub proof fn law_device_id_bytes(v: u16)
    ensures
        <DeviceID as vstd::std_specs::convert::FromSpec<u16>>::from_spec(v).option_code == v / 256,
        <DeviceID as vstd::std_specs::convert::FromSpec<u16>>::from_spec(v).device_id == v % 256,
{
    assert((v >> 8) == v / 256 && (v & 0xff) == v % 256) by (bit_vector);
}

/// Reading back the two value bytes of a write transaction gives the value written.
pub proof fn law_read_of_write(reg: u8, val: u16)
    ensures
        spec_write_frame(reg, val).len() == 3,
        spec_write_frame(reg, val)[0] == reg,
        spec_read_value(spec_write_frame(reg, val)[1], spec_write_frame(reg, val)[2]) == val,
{
}

} // verus!
