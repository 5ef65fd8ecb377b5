use veml6030::builder::{bring_up_step, BringUpStep, VemlBuilder};
use veml6030::error::Error;
use veml6030::regs::{
    ALSGain, ALSIt, ALSPers, PsmMode, REG_ALS_CONFIG, REG_ALS_WINDOWS_LOW, REG_ALS_WINDOW_HIGHT,
    REG_POWER_SAVING,
};
use veml6030::sensor::RegWrite;

fn w(reg: u8, value: u16) -> RegWrite {
    RegWrite { reg, value }
}

#[test]
fn default_bring_up() {
    let (sensor, writes) = VemlBuilder::new(5u8, 0x10).build_plan();
    assert_eq!(sensor.addr(), 0x10);
    assert_eq!(sensor.als_config().0, 0x0000);
    assert_eq!(
        writes,
        vec![
            w(REG_ALS_CONFIG, 0x0001),
            w(REG_POWER_SAVING, 0x0000),
            w(REG_ALS_WINDOWS_LOW, 0),
            w(REG_ALS_WINDOW_HIGHT, 0xFFFF),
            w(REG_ALS_CONFIG, 0x0000),
        ]
    );
    assert_eq!(sensor.release(), 5u8);
}

#[test]
fn gain_and_time_bring_up() {
    let (sensor, writes) = VemlBuilder::new((), 0x10)
        .gain(ALSGain::AlsX1)
        .integration_time(ALSIt::It800ms)
        .build_plan();
    assert_eq!(writes[0], w(REG_ALS_CONFIG, 0x00C1));
    assert_eq!(writes[4], w(REG_ALS_CONFIG, 0x00C0));
    assert_eq!(sensor.als_config().als_it(), ALSIt::It800ms);
    assert_eq!(sensor.als_config().als_sd(), 0);
}

#[test]
fn interrupt_bring_up_with_thresholds() {
    let builder = VemlBuilder::new((), 0x48)
        .gain(ALSGain::AlsX2)
        .integration_time(ALSIt::It100ms)
        .persistence(ALSPers::Ap4)
        .interrupt_enabled();
    assert_eq!(builder.als_config().als_int_en(), 1);
    let (sensor, writes) = builder.thresholds_in_counts(0, 20833).build_plan();
    assert_eq!(sensor.addr(), 0x48);
    assert_eq!(
        writes,
        vec![
            w(REG_ALS_CONFIG, 0x0823),
            w(REG_POWER_SAVING, 0x0000),
            w(REG_ALS_WINDOWS_LOW, 0),
            w(REG_ALS_WINDOW_HIGHT, 20833),
            w(REG_ALS_CONFIG, 0x0822),
        ]
    );
}

#[test]
fn presets() {
    let b = VemlBuilder::new((), 0x10).indoor_mode();
    assert_eq!(b.als_config().als_gain(), ALSGain::AlsX2);
    assert_eq!(b.als_config().als_it(), ALSIt::It800ms);
    let b = VemlBuilder::new((), 0x10).outdoor_mode();
    assert_eq!(b.als_config().als_gain(), ALSGain::AlsDiv8);
    assert_eq!(b.als_config().als_it(), ALSIt::It50ms);
    let (_, writes) = VemlBuilder::new((), 0x10).low_power_mode().build_plan();
    assert_eq!(writes[1], w(REG_POWER_SAVING, 0x0007));
    let (_, writes) = VemlBuilder::new((), 0x10).power_saving(PsmMode::PSMMode2, false).build_plan();
    assert_eq!(writes[1], w(REG_POWER_SAVING, 0x0002));
}

#[test]
fn bring_up_steps_stop_at_first_failure() {
    let (_, writes) = VemlBuilder::new((), 0x10).build_plan();
    assert_eq!(bring_up_step(&writes, 0, true), BringUpStep::Write(w(REG_ALS_CONFIG, 0x0001)));
    assert_eq!(bring_up_step(&writes, 2, true), BringUpStep::Write(w(REG_ALS_WINDOWS_LOW, 0)));
    assert_eq!(bring_up_step(&writes, 1, false), BringUpStep::Failed(Error::I2CWriteError));
    assert_eq!(bring_up_step(&writes, 5, true), BringUpStep::Done);
    assert_eq!(bring_up_step(&writes, 5, false), BringUpStep::Failed(Error::I2CWriteError));
}

#[test]
fn reachable_builder_settings_keep_reserved_bits_clear() {
    let check = |cfg: u16, ps: u16| {
        assert_eq!(cfg & 1, 1);
        assert_eq!(cfg & 0xE40C, 0);
        assert!([0x0, 0x1, 0x2, 0x3, 0x8, 0xC].contains(&((cfg >> 6) & 0xF)));
        assert_eq!(ps & 0xFFF8, 0);
    };
    let b = VemlBuilder::new((), 0x10)
        .indoor_mode()
        .persistence(ALSPers::Ap8)
        .low_power_mode()
        .outdoor_mode()
        .gain(ALSGain::AlsDiv4)
        .integration_time(ALSIt::It25ms);
    let (_, writes) = b.build_plan();
    check(writes[0].value, writes[1].value);
    let b = VemlBuilder::new((), 0x10)
        .power_saving(PsmMode::PSMMode3, true)
        .interrupt_enabled()
        .thresholds_in_counts(5, 6);
    check(b.als_config().0, 0);
    let (_, writes) = b.build_plan();
    check(writes[0].value, writes[1].value);
}
