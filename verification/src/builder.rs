//! A builder that collects the sensor's settings and yields the register
//! writes that bring the sensor up with them.
//!
//! The type parameter `S` tracks whether the interrupt window still has to be
//! given: a builder with the interrupt enabled is a `VemlBuilder<_, NeedsThresholds>`
//! until its thresholds are set.
use crate::regs::{
    law_als_config_fields, law_builder_ok_preserved, law_power_saving_fields, ALSGain, ALSIt, ALSPers, AlsConfig, PowerSaving, PsmMode, REG_ALS_CONFIG, REG_ALS_WINDOWS_LOW,
    REG_ALS_WINDOW_HIGHT, REG_POWER_SAVING,
};
use crate::error::Error;
use crate::sensor::{law_stop_start, RegWrite, Veml6030};
use core::marker::PhantomData;
use vstd::prelude::*;

verus! {

/// Builder state: the settings are complete and the sensor can be built.
pub struct Ready;

/// Builder state: the interrupt is enabled and its thresholds are still missing.
pub struct NeedsThresholds;

/// The settings of a sensor that is yet to be brought up.
pub struct VemlBuilder<I2C, S> {
    i2c: I2C,
    addr: u8,
    als_config: AlsConfig,
    power_saving: PowerSaving,
    th_low: u16,
    th_high: u16,
    _state: PhantomData<S>,
}

impl<I2C, S> VemlBuilder<I2C, S> {
    pub closed spec fn spec_i2c(&self) -> I2C {
        self.i2c
    }

    pub closed spec fn spec_addr(&self) -> u8 {
        self.addr
    }

    pub closed spec fn spec_als_config(&self) -> AlsConfig {
        self.als_config
    }

    pub closed spec fn spec_power_saving(&self) -> PowerSaving {
        self.power_saving
    }

    pub closed spec fn spec_th_low(&self) -> u16 {
        self.th_low
    }

    pub closed spec fn spec_th_high(&self) -> u16 {
        self.th_high
    }

    /// The settings a builder can reach from `new`: the configuration keeps
    /// the sensor shut down with reserved bits 15..13, 10 and 3..2 clear and
    /// an integration time code of its own, and power saving uses bits 2..0 only.
    pub open spec fn spec_builder_ok(&self) -> bool {
        &&& self.spec_als_config().spec_builder_ok()
        &&& self.spec_power_saving().spec_builder_ok()
    }

    /// `other` holds the same bus, address and thresholds as `self`.
    pub open spec fn same_bus_and_window<T>(&self, other: &VemlBuilder<I2C, T>) -> bool {
        &&& other.spec_i2c() == self.spec_i2c()
        &&& other.spec_addr() == self.spec_addr()
        &&& other.spec_th_low() == self.spec_th_low()
        &&& other.spec_th_high() == self.spec_th_high()
    }

    /// The configuration collected so far.
    pub fn als_config(&self) -> (r: AlsConfig)
        ensures
            r == self.spec_als_config(),
    {
        self.als_config
    }

    /// Sets the gain.
    pub fn gain(self, gain: ALSGain) -> (r: Self)
        ensures
            self.same_bus_and_window(&r),
            self.spec_builder_ok() ==> r.spec_builder_ok(),
            r.spec_als_config() == self.spec_als_config().spec_with_gain(gain),
            r.spec_power_saving() == self.spec_power_saving(),
    {
        proof {
            law_builder_ok_preserved(self.als_config, self.power_saving, gain, ALSIt::It100ms, ALSPers::Ap1, PsmMode::PSMMode1, 0);
        }
        let mut b = self;
        b.als_config.set_als_gain(gain);
        b
    }

    /// Sets the integration time.
    pub fn integration_time(self, it: ALSIt) -> (r: Self)
        ensures
            self.same_bus_and_window(&r),
            self.spec_builder_ok() ==> r.spec_builder_ok(),
            r.spec_als_config() == self.spec_als_config().spec_with_it(it),
            r.spec_power_saving() == self.spec_power_saving(),
    {
        proof {
            law_builder_ok_preserved(self.als_config, self.power_saving, ALSGain::AlsX1, it, ALSPers::Ap1, PsmMode::PSMMode1, 0);
        }
        let mut b = self;
        b.als_config.set_als_it(it);
        b
    }

    /// Sets the interrupt persistence.
    pub fn persistence(self, pers: ALSPers) -> (r: Self)
        ensures
            self.same_bus_and_window(&r),
            self.spec_builder_ok() ==> r.spec_builder_ok(),
            r.spec_als_config() == self.spec_als_config().spec_with_pers(pers),
            r.spec_power_saving() == self.spec_power_saving(),
    {
        proof {
            law_builder_ok_preserved(self.als_config, self.power_saving, ALSGain::AlsX1, ALSIt::It100ms, pers, PsmMode::PSMMode1, 0);
        }
        let mut b = self;
        b.als_config.set_als_pers(pers);
        b
    }

    /// Sets the power saving mode and whether power saving is enabled.
    pub fn power_saving(self, mode: PsmMode, enabled: bool) -> (r: Self)
        ensures
            self.same_bus_and_window(&r),
            self.spec_builder_ok() ==> r.spec_builder_ok(),
            r.spec_als_config() == self.spec_als_config(),
            r.spec_power_saving() == self.spec_power_saving().spec_with_psm(mode).spec_with_psm_en(
                if enabled { 1u8 } else { 0u8 },
            ),
    {
        proof {
            law_builder_ok_preserved(self.als_config, self.power_saving, ALSGain::AlsX1, ALSIt::It100ms, ALSPers::Ap1, mode, if enabled { 1u8 } else { 0u8 });
            law_builder_ok_preserved(self.als_config, self.power_saving.spec_with_psm(mode), ALSGain::AlsX1, ALSIt::It100ms, ALSPers::Ap1, mode, if enabled { 1u8 } else { 0u8 });
        }
        let mut b = self;
        b.power_saving.set_psm(mode);
        b.power_saving.set_psm_en(if enabled { 1u8 } else { 0u8 });
        b
    }

    /// The same settings in another builder state.
    fn transition<NewS>(self) -> (r: VemlBuilder<I2C, NewS>)
        ensures
            self.same_bus_and_window(&r),
            self.spec_builder_ok() ==> r.spec_builder_ok(),
            r.spec_als_config() == self.spec_als_config(),
            r.spec_power_saving() == self.spec_power_saving(),
    {
        VemlBuilder {
            i2c: self.i2c,
            addr: self.addr,
            als_config: self.als_config,
            power_saving: self.power_saving,
            th_low: self.th_low,
            th_high: self.th_high,
            _state: PhantomData,
        }
    }
}

/// The register writes that bring a sensor up with configuration `config`,
/// power saving `ps` and window `low ..= high`: the configuration with the
/// sensor shut down, the power saving register, the low and the high
/// threshold, and finally the configuration with the sensor running.
pub open spec fn spec_bring_up_writes(config: AlsConfig, ps: PowerSaving, low: u16, high: u16) -> Seq<
    RegWrite,
> {
    seq![
        RegWrite { reg: REG_ALS_CONFIG, value: config.spec_with_sd(1).0 },
        RegWrite { reg: REG_POWER_SAVING, value: ps.0 },
        RegWrite { reg: REG_ALS_WINDOWS_LOW, value: low },
        RegWrite { reg: REG_ALS_WINDOW_HIGHT, value: high },
        RegWrite { reg: REG_ALS_CONFIG, value: config.spec_with_sd(1).spec_with_sd(0).0 },
    ]
}

/// What bring-up does next.
#[derive(Debug, Clone, Copy, PartialEq, Eq, Structural)]
pub enum BringUpStep {
    /// Send this write.
    Write(RegWrite),
    /// Every write went out: the sensor is up.
    Done,
    /// A write failed: bring-up ends with this error.
    Failed(Error),
}

/// The next step of bring-up, after `sent` of the planned `writes` went out
/// and the last of them succeeded (`last_ok`; `true` before the first). A
/// failed write ends bring-up with a write error; otherwise the next write
/// follows, until none is left.
pub fn bring_up_step(writes: &Vec<RegWrite>, sent: usize, last_ok: bool) -> (r: BringUpStep)
    requires
        sent <= writes.len(),
    ensures
        !last_ok ==> r == BringUpStep::Failed(Error::I2CWriteError),
        last_ok && sent < writes.len() ==> r == BringUpStep::Write(writes@[sent as int]),
        last_ok && sent == writes.len() ==> r == BringUpStep::Done,
{
    if !last_ok {
        BringUpStep::Failed(Error::I2CWriteError)
    } else if sent < writes.len() {
        BringUpStep::Write(writes[sent])
    } else {
        BringUpStep::Done
    }
}

impl<I2C> VemlBuilder<I2C, Ready> {
    /// A builder for the sensor at `addr` on `i2c`: configuration word 1 (gain
    /// 1, 100 ms, persistence 1, interrupt off, shut down), power saving off,
    /// and the widest window `0 ..= 0xFFFF`.
    pub fn new(i2c: I2C, addr: u8) -> (r: Self)
        ensures
            r.spec_i2c() == i2c,
            r.spec_addr() == addr,
            r.spec_als_config() == AlsConfig(1),
            r.spec_power_saving() == PowerSaving(0),
            r.spec_th_low() == 0,
            r.spec_th_high() == 0xFFFF,
            r.spec_builder_ok(),
    {
        proof {
            law_builder_ok_preserved(AlsConfig(1), PowerSaving(0), ALSGain::AlsX1, ALSIt::It100ms, ALSPers::Ap1, PsmMode::PSMMode1, 0);
        }
        VemlBuilder {
            i2c,
            addr,
            als_config: AlsConfig(1),
            power_saving: PowerSaving(0),
            th_low: 0,
            th_high: 0xFFFF,
            _state: PhantomData,
        }
    }

    /// Enables the threshold interrupt; the thresholds must be given next.
    pub fn interrupt_enabled(self) -> (r: VemlBuilder<I2C, NeedsThresholds>)
        ensures
            self.same_bus_and_window(&r),
            self.spec_builder_ok() ==> r.spec_builder_ok(),
            r.spec_als_config() == self.spec_als_config().spec_with_int_en(1),
            r.spec_power_saving() == self.spec_power_saving(),
    {
        proof {
            law_builder_ok_preserved(self.als_config, self.power_saving, ALSGain::AlsX1, ALSIt::It100ms, ALSPers::Ap1, PsmMode::PSMMode1, 1);
        }
        let mut b = self;
        b.als_config.set_als_int_en(1);
        b.transition()
    }

    /// High sensitivity for dim light: gain 2 and 800 ms.
    pub fn indoor_mode(self) -> (r: Self)
        ensures
            self.same_bus_and_window(&r),
            self.spec_builder_ok() ==> r.spec_builder_ok(),
            r.spec_als_config() == self.spec_als_config().spec_with_gain(ALSGain::AlsX2).spec_with_it(
                ALSIt::It800ms,
            ),
            r.spec_power_saving() == self.spec_power_saving(),
    {
        self.gain(ALSGain::AlsX2).integration_time(ALSIt::It800ms)
    }

    /// Low sensitivity for bright light: gain 1/8 and 50 ms.
    pub fn outdoor_mode(self) -> (r: Self)
        ensures
            self.same_bus_and_window(&r),
            self.spec_builder_ok() ==> r.spec_builder_ok(),
            r.spec_als_config() == self.spec_als_config().spec_with_gain(
                ALSGain::AlsDiv8,
            ).spec_with_it(ALSIt::It50ms),
            r.spec_power_saving() == self.spec_power_saving(),
    {
        self.gain(ALSGain::AlsDiv8).integration_time(ALSIt::It50ms)
    }

    /// The lowest power draw: power saving mode 4, enabled.
    pub fn low_power_mode(self) -> (r: Self)
        ensures
            self.same_bus_and_window(&r),
            self.spec_builder_ok() ==> r.spec_builder_ok(),
            r.spec_als_config() == self.spec_als_config(),
            r.spec_power_saving() == self.spec_power_saving().spec_with_psm(
                PsmMode::PSMMode4,
            ).spec_with_psm_en(1),
    {
        self.power_saving(PsmMode::PSMMode4, true)
    }

    /// The sensor as it stands after bring-up, and the register writes that
    /// bring it up, in the order in which they go out on the bus.
    pub fn build_plan(self) -> (r: (Veml6030<I2C>, Vec<RegWrite>))
        ensures
            r.0.spec_i2c() == self.spec_i2c(),
            r.0.spec_addr() == self.spec_addr(),
            r.0.spec_als_config() == self.spec_als_config().spec_with_sd(1).spec_with_sd(0),
            r.1@ == spec_bring_up_writes(
                self.spec_als_config(),
                self.spec_power_saving(),
                self.spec_th_low(),
                self.spec_th_high(),
            ),
            r.1@.len() == 5,
            r.1@[0] == (RegWrite { reg: 0x00, value: self.spec_als_config().spec_with_sd(1).0 }),
            r.1@[1] == (RegWrite { reg: 0x03, value: self.spec_power_saving().0 }),
            r.1@[2] == (RegWrite { reg: 0x02, value: self.spec_th_low() }),
            r.1@[3] == (RegWrite { reg: 0x01, value: self.spec_th_high() }),
            r.1@[4] == (RegWrite { reg: 0x00, value: r.0.spec_als_config().0 }),
    {
        let mut config = self.als_config;
        config.set_als_sd(1);
        let mut sensor = Veml6030::new_with_config(self.i2c, self.addr, config);
        let mut writes: Vec<RegWrite> = Vec::new();
        writes.push(RegWrite { reg: REG_ALS_CONFIG, value: config.0 });
        writes.push(RegWrite { reg: REG_POWER_SAVING, value: self.power_saving.0 });
        let (low, high) = Veml6030::<I2C>::threshold_writes(self.th_low, self.th_high);
        writes.push(low);
        writes.push(high);
        let start = sensor.start_write();
        writes.push(start);
        assert(writes@ =~= spec_bring_up_writes(
            self.als_config,
            self.power_saving,
            self.th_low,
            self.th_high,
        ));
        (sensor, writes)
    }
}

impl<I2C> VemlBuilder<I2C, NeedsThresholds> {
    /// Sets the interrupt window in output counts: the interrupt fires when
    /// the output falls below `low` or rises above `high`.
    pub fn thresholds_in_counts(self, low: u16, high: u16) -> (r: VemlBuilder<I2C, Ready>)
        ensures
            r.spec_i2c() == self.spec_i2c(),
            r.spec_addr() == self.spec_addr(),
            r.spec_als_config() == self.spec_als_config(),
            r.spec_power_saving() == self.spec_power_saving(),
            r.spec_th_low() == low,
            r.spec_th_high() == high,
            self.spec_builder_ok() ==> r.spec_builder_ok(),
    {
        let mut b = self;
        b.th_low = low;
        b.th_high = high;
        b.transition()
    }
}

/// Bring-up shuts the sensor down with the collected settings before anything
/// else (configuration register 0x00), stores the collected power saving
/// register unchanged in register 0x03, the low threshold in the low window
/// register 0x02 and the high threshold in the high window register 0x01, for
/// every window; its last write starts the sensor with gain, integration time,
/// persistence and interrupt setting as collected; that last value is the
/// configuration the built sensor holds.
pub proof fn law_bring_up(config: AlsConfig, ps: PowerSaving, low: u16, high: u16)
    ensures
        ({
            let w = spec_bring_up_writes(config, ps, low, high);
            let first = AlsConfig(w[0].value);
            let last = AlsConfig(w[4].value);
            &&& w.len() == 5
            &&& w[0].reg == REG_ALS_CONFIG && w[4].reg == REG_ALS_CONFIG
            &&& first.spec_als_sd() == 1
            &&& last.spec_als_sd() == 0
            &&& last == config.spec_with_sd(1).spec_with_sd(0)
            &&& last == config.spec_with_sd(0)
            &&& first.spec_als_gain() == config.spec_als_gain()
            &&& last.spec_als_gain() == config.spec_als_gain()
            &&& last.spec_als_it() == config.spec_als_it()
            &&& last.spec_als_pers() == config.spec_als_pers()
            &&& last.spec_als_int_en() == config.spec_als_int_en()
            &&& w[2].value == low && w[3].value == high
            &&& w[0].reg == 0x00 && w[4].reg == 0x00
            &&& w[1] == (RegWrite { reg: 0x03, value: ps.0 })
            &&& w[2] == (RegWrite { reg: 0x02, value: low })
            &&& w[3] == (RegWrite { reg: 0x01, value: high })
            &&& PowerSaving(w[1].value).spec_psm() == ps.spec_psm()
            &&& PowerSaving(w[1].value).spec_psm_en() == ps.spec_psm_en()
        }),
{
    law_stop_start(config);
    law_stop_start(config.spec_with_sd(1));
}

/// The presets: indoor mode reads back as gain 2 and 800 ms, outdoor mode as
/// gain 1/8 and 50 ms, each keeping persistence, interrupt and shutdown bits;
/// low power mode reads back as power saving mode 4, enabled.
pub proof fn law_presets(c: AlsConfig, p: PowerSaving)
    ensures
        c.spec_with_gain(ALSGain::AlsX2).spec_with_it(ALSIt::It800ms).spec_als_gain() == ALSGain::AlsX2,
        c.spec_with_gain(ALSGain::AlsX2).spec_with_it(ALSIt::It800ms).spec_als_it() == ALSIt::It800ms,
        c.spec_with_gain(ALSGain::AlsX2).spec_with_it(ALSIt::It800ms).spec_als_pers() == c.spec_als_pers(),
        c.spec_with_gain(ALSGain::AlsX2).spec_with_it(ALSIt::It800ms).spec_als_int_en() == c.spec_als_int_en(),
        c.spec_with_gain(ALSGain::AlsX2).spec_with_it(ALSIt::It800ms).spec_als_sd() == c.spec_als_sd(),
        c.spec_with_gain(ALSGain::AlsDiv8).spec_with_it(ALSIt::It50ms).spec_als_gain() == ALSGain::AlsDiv8,
        c.spec_with_gain(ALSGain::AlsDiv8).spec_with_it(ALSIt::It50ms).spec_als_it() == ALSIt::It50ms,
        c.spec_with_gain(ALSGain::AlsDiv8).spec_with_it(ALSIt::It50ms).spec_als_pers() == c.spec_als_pers(),
        c.spec_with_gain(ALSGain::AlsDiv8).spec_with_it(ALSIt::It50ms).spec_als_int_en() == c.spec_als_int_en(),
        c.spec_with_gain(ALSGain::AlsDiv8).spec_with_it(ALSIt::It50ms).spec_als_sd() == c.spec_als_sd(),
        p.spec_with_psm(PsmMode::PSMMode4).spec_with_psm_en(1).spec_psm() == PsmMode::PSMMode4,
        p.spec_with_psm(PsmMode::PSMMode4).spec_with_psm_en(1).spec_psm_en() == 1,
{
    law_als_config_fields(c, ALSGain::AlsX2, ALSIt::It800ms, ALSPers::Ap1, 0);
    law_als_config_fields(c.spec_with_gain(ALSGain::AlsX2), ALSGain::AlsX2, ALSIt::It800ms, ALSPers::Ap1, 0);
    law_als_config_fields(c, ALSGain::AlsDiv8, ALSIt::It50ms, ALSPers::Ap1, 0);
    law_als_config_fields(c.spec_with_gain(ALSGain::AlsDiv8), ALSGain::AlsDiv8, ALSIt::It50ms, ALSPers::Ap1, 0);
    law_power_saving_fields(p, PsmMode::PSMMode4, 1);
    law_power_saving_fields(p.spec_with_psm(PsmMode::PSMMode4), PsmMode::PSMMode4, 1);
}

} // verus!
