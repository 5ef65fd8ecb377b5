//! The sensor's state on the host side and the bus traffic that each operation needs.
//!
//! The bus itself is driven by the caller: each operation here says which bytes
//! go out, how the bytes that come back are read, and how the cached
//! configuration changes.
use crate::bits::{field, lemma_with_field_twice};
use crate::regs::{
    law_als_config_fields, ALSGain, ALSIt, ALSPers, AlsConfig, REG_ALS, REG_ALS_CONFIG, REG_ALS_INT,
    REG_ALS_WINDOWS_LOW, REG_ALS_WINDOW_HIGHT, REG_DEVICE_ID, REG_WHITE,
};
use vstd::prelude::*;

verus! {

/// One write of a 16-bit value into a register of the sensor.
#[derive(Debug, Clone, Copy, PartialEq, Eq, Structural)]
pub struct RegWrite {
    pub reg: u8,
    pub value: u16,
}

/// The bytes of a write transaction: the register address, then the value low byte first.
pub open spec fn spec_write_frame(reg: u8, val: u16) -> Seq<u8> {
    seq![reg, (val % 256) as u8, (val / 256) as u8]
}

/// The register value carried by the two bytes of a read transaction, low byte first.
pub open spec fn spec_read_value(lo: u8, hi: u8) -> u16 {
    (hi * 256 + lo) as u16
}

/// The configuration value written to enable (bit 1 set) or disable (bit 1
/// clear) the interrupt, from the value read back from the configuration register.
pub open spec fn spec_interrupt_value(current: u16, enable: bool) -> u16 {
    if enable {
        current | 0x0002
    } else {
        current & 0xfffd
    }
}

/// A VEML6030 on a bus `I2C` at address `addr`, with the configuration that
/// was last written to it.
#[derive(Debug)]
pub struct Veml6030<I2C> {
    i2c: I2C,
    addr: u8,
    als_config: AlsConfig,
}

impl<I2C> Veml6030<I2C> {
    pub closed spec fn spec_i2c(&self) -> I2C {
        self.i2c
    }

    pub closed spec fn spec_addr(&self) -> u8 {
        self.addr
    }

    pub closed spec fn spec_als_config(&self) -> AlsConfig {
        self.als_config
    }

    /// A sensor in its power-on state: default configuration, shut down.
    pub fn new(i2c: I2C, addr: u8) -> (s: Self)
        ensures
            s.spec_i2c() == i2c,
            s.spec_addr() == addr,
            s.spec_als_config() == AlsConfig(1),
    {
        Veml6030 { i2c, addr, als_config: AlsConfig::default() }
    }

    /// A sensor that was given the configuration `als_config`.
    pub fn new_with_config(i2c: I2C, addr: u8, als_config: AlsConfig) -> (s: Self)
        ensures
            s.spec_i2c() == i2c,
            s.spec_addr() == addr,
            s.spec_als_config() == als_config,
    {
        Veml6030 { i2c, addr, als_config }
    }

    /// The bus address of the sensor.
    pub fn addr(&self) -> (r: u8)
        ensures
            r == self.spec_addr(),
    {
        self.addr
    }

    /// The bus the sensor sits on, for the caller to carry out transactions.
    pub fn bus(&mut self) -> (r: &mut I2C)
        ensures
            *r == old(self).spec_i2c(),
            final(self).spec_i2c() == *final(r),
            final(self).spec_addr() == old(self).spec_addr(),
            final(self).spec_als_config() == old(self).spec_als_config(),
    {
        &mut self.i2c
    }

    /// Gives the bus back, ending the use of the sensor.
    pub fn release(self) -> (r: I2C)
        ensures
            r == self.spec_i2c(),
    {
        self.i2c
    }

    /// The configuration last written to the sensor.
    pub fn als_config(&self) -> (r: AlsConfig)
        ensures
            r == self.spec_als_config(),
    {
        self.als_config
    }

    /// The resolution (lux per output count) of the current configuration, as
    /// the exact fraction `r.0 / r.1`.
    pub fn resolution_fraction(&self) -> (r: (u32, u32))
        ensures
            r == self.spec_als_config().spec_resolution_fraction(),
            r.1 > 0,
    {
        self.als_config.resolution_fraction()
    }

    /// The bytes that a read transaction of register `reg` sends before the
    /// sensor answers: the register address alone.
    pub fn read_request(reg: u8) -> (r: [u8; 1])
        ensures
            r@ == seq![reg],
    {
        let request = [reg];
        assert(request@ =~= seq![reg]);
        request
    }

    /// The register read for the ALS output.
    pub fn als_reg() -> (r: u8)
        ensures
            r == REG_ALS,
    {
        REG_ALS
    }

    /// The register read for the white channel output.
    pub fn white_reg() -> (r: u8)
        ensures
            r == REG_WHITE,
    {
        REG_WHITE
    }

    /// The register read for the device identification.
    pub fn device_id_reg() -> (r: u8)
        ensures
            r == REG_DEVICE_ID,
    {
        REG_DEVICE_ID
    }

    /// The register read for the interrupt status.
    pub fn int_status_reg() -> (r: u8)
        ensures
            r == REG_ALS_INT,
    {
        REG_ALS_INT
    }

    /// The register read before enabling or disabling the interrupt: the configuration.
    pub fn config_reg() -> (r: u8)
        ensures
            r == REG_ALS_CONFIG,
    {
        REG_ALS_CONFIG
    }

    /// The register value in the two bytes that a read transaction returns.
    pub fn decode_read(buf: [u8; 2]) -> (r: u16)
        ensures
            r == spec_read_value(buf[0], buf[1]),
            r == buf[1] * 256 + buf[0],
    {
        let v: u16 = ((buf[1] as u16) << 8) | (buf[0] as u16);
        let lo = buf[0];
        let hi = buf[1];
        assert(((hi as u16) << 8) | (lo as u16) == hi * 256 + lo) by (bit_vector);
        v
    }

    /// The bytes of the write transaction that stores `val` in register `reg`.
    pub fn encode_write(reg: u8, val: u16) -> (r: [u8; 3])
        ensures
            r@ == spec_write_frame(reg, val),
    {
        assert((val & 0xff) == val % 256 && (val >> 8) == val / 256) by (bit_vector);
        let frame = [reg, (val & 0xff) as u8, (val >> 8) as u8];
        assert(frame@ =~= spec_write_frame(reg, val));
        frame
    }

    /// Shuts the sensor down: sets the shutdown bit of the cached
    /// configuration and gives the write that stores it.
    pub fn stop_write(&mut self) -> (w: RegWrite)
        ensures
            final(self).spec_i2c() == old(self).spec_i2c(),
            final(self).spec_addr() == old(self).spec_addr(),
            final(self).spec_als_config() == old(self).spec_als_config().spec_with_sd(1),
            w == (RegWrite { reg: REG_ALS_CONFIG, value: final(self).spec_als_config().0 }),
    {
        self.als_config.set_als_sd(1);
        RegWrite { reg: REG_ALS_CONFIG, value: self.als_config.0 }
    }

    /// Powers the sensor on: clears the shutdown bit of the cached
    /// configuration and gives the write that stores it.
    pub fn start_write(&mut self) -> (w: RegWrite)
        ensures
            final(self).spec_i2c() == old(self).spec_i2c(),
            final(self).spec_addr() == old(self).spec_addr(),
            final(self).spec_als_config() == old(self).spec_als_config().spec_with_sd(0),
            w == (RegWrite { reg: REG_ALS_CONFIG, value: final(self).spec_als_config().0 }),
    {
        self.als_config.set_als_sd(0);
        RegWrite { reg: REG_ALS_CONFIG, value: self.als_config.0 }
    }

    /// The write that enables or disables the interrupt, given the value
    /// just read from the configuration register. The cached configuration is
    /// not involved.
    pub fn interrupt_write(current: u16, enable: bool) -> (w: RegWrite)
        ensures
            w == (RegWrite { reg: REG_ALS_CONFIG, value: spec_interrupt_value(current, enable) }),
    {
        let value = if enable {
            current | 0x0002
        } else {
            current & 0xfffd
        };
        RegWrite { reg: REG_ALS_CONFIG, value }
    }

    /// The two writes that set the interrupt window: the low threshold first,
    /// then the high one.
    pub fn threshold_writes(low: u16, high: u16) -> (w: (RegWrite, RegWrite))
        ensures
            w.0 == (RegWrite { reg: REG_ALS_WINDOWS_LOW, value: low }),
            w.1 == (RegWrite { reg: REG_ALS_WINDOW_HIGHT, value: high }),
    {
        (
            RegWrite { reg: REG_ALS_WINDOWS_LOW, value: low },
            RegWrite { reg: REG_ALS_WINDOW_HIGHT, value: high },
        )
    }
}

/// Reading back the two value bytes of a write transaction gives the value written.
pub proof fn law_read_of_write(reg: u8, val: u16)
    ensures
        spec_write_frame(reg, val).len() == 3,
        spec_write_frame(reg, val)[0] == reg,
        spec_read_value(spec_write_frame(reg, val)[1], spec_write_frame(reg, val)[2]) == val,
{
}

/// Stopping sets the shutdown bit and starting clears it; neither touches
/// gain, integration time, persistence or interrupt enable, and a start after
/// a stop leaves the configuration as a start alone would.
pub proof fn law_stop_start(c: AlsConfig)
    ensures
        c.spec_with_sd(1).spec_als_sd() == 1,
        c.spec_with_sd(0).spec_als_sd() == 0,
        c.spec_with_sd(1).spec_als_gain() == c.spec_als_gain(),
        c.spec_with_sd(1).spec_als_it() == c.spec_als_it(),
        c.spec_with_sd(1).spec_als_pers() == c.spec_als_pers(),
        c.spec_with_sd(1).spec_als_int_en() == c.spec_als_int_en(),
        c.spec_with_sd(0).spec_als_gain() == c.spec_als_gain(),
        c.spec_with_sd(0).spec_als_it() == c.spec_als_it(),
        c.spec_with_sd(0).spec_als_pers() == c.spec_als_pers(),
        c.spec_with_sd(0).spec_als_int_en() == c.spec_als_int_en(),
        c.spec_with_sd(1).spec_with_sd(0) == c.spec_with_sd(0),
        c.spec_with_sd(0).spec_with_sd(1) == c.spec_with_sd(1),
{
    law_als_config_fields(c, ALSGain::AlsX1, ALSIt::It100ms, ALSPers::Ap1, 1);
    law_als_config_fields(c, ALSGain::AlsX1, ALSIt::It100ms, ALSPers::Ap1, 0);
    lemma_with_field_twice(c.0, 0, 1, 1, 0);
    lemma_with_field_twice(c.0, 0, 1, 0, 1);
}

/// Enabling the interrupt sets bit 1 of the configuration value and disabling
/// clears it; no other bit changes, and of two such writes the later one decides.
pub proof fn law_interrupt_value(current: u16, enable: bool, again: bool)
    ensures
        field(spec_interrupt_value(current, enable), 1, 1) == (if enable { 1u16 } else { 0u16 }),
        spec_interrupt_value(current, enable) & 0xfffd == current & 0xfffd,
        spec_interrupt_value(spec_interrupt_value(current, enable), again) == spec_interrupt_value(
            current,
            again,
        ),
{
    assert(((current | 0x0002) >> 1) & 1 == 1 && ((current & 0xfffd) >> 1) & 1 == 0) by (bit_vector);
    assert((current | 0x0002) & 0xfffd == current & 0xfffd && (current & 0xfffd) & 0xfffd == current
        & 0xfffd) by (bit_vector);
    assert(((current | 0x0002) | 0x0002) == current | 0x0002 && ((current | 0x0002) & 0xfffd)
        == current & 0xfffd && ((current & 0xfffd) | 0x0002) == current | 0x0002 && ((current
        & 0xfffd) & 0xfffd) == current & 0xfffd) by (bit_vector);
}

} // verus!
