use veml6030::regs::{AlsConfig, ALSGain, ALSIt, REG_ALS, REG_ALS_CONFIG, REG_ALS_WINDOWS_LOW, REG_ALS_WINDOW_HIGHT};
use veml6030::sensor::{RegWrite, Veml6030};

const ADDR: u8 = 0x10;

fn lux(sensor: &Veml6030<()>, raw: u16) -> f32 {
    let (num, den) = sensor.resolution_fraction();
    raw as f32 * (num as f32 / den as f32)
}

#[test]
fn test_read_reg() {
    // Register 0x04 answers with the bytes 0xAB, 0xCD.
    assert_eq!(REG_ALS, 0x04);
    let val = Veml6030::<()>::decode_read([0xAB, 0xCD]);
    assert_eq!(val, 0xCDAB);
}

#[test]
fn test_write_reg() {
    let frame = Veml6030::<()>::encode_write(0x00, 0x0201);
    assert_eq!(frame, [0x00, 0x01, 0x02]);
}

#[test]
fn test_read_lux_calculation() {
    let mut config = AlsConfig::default();
    config.set_als_sd(0);
    let sensor = Veml6030::new_with_config((), ADDR, config);
    let raw = Veml6030::<()>::decode_read([100, 0]);
    let lux = lux(&sensor, raw);
    // 100 * 0.0672 = 6.72
    assert!((lux - 6.72).abs() < 0.0001);
}

#[test]
fn test_read_reg_async() {
    let val = Veml6030::<()>::decode_read([0xAB, 0xCD]);
    assert_eq!(val, 0xCDAB);
}

#[test]
fn test_read_lux_async() {
    let mut config = AlsConfig::default();
    config.set_als_sd(0);
    let sensor = Veml6030::new_with_config((), ADDR, config);
    let raw = Veml6030::<()>::decode_read([100, 0]);
    let lux = lux(&sensor, raw);
    assert!((lux - 6.72).abs() < 0.0001);
}

#[test]
fn new_sensor_is_shut_down_with_default_config() {
    let sensor = Veml6030::new(7u32, ADDR);
    assert_eq!(sensor.addr(), ADDR);
    assert_eq!(sensor.als_config().0, 0x0001);
    assert_eq!(sensor.release(), 7u32);
}

#[test]
fn write_then_read_gives_value_back() {
    for val in [0u16, 1, 0x00FF, 0x0100, 0x1234, 0xCDAB, 0xFFFF] {
        let frame = Veml6030::<()>::encode_write(0x02, val);
        assert_eq!(frame[0], 0x02);
        assert_eq!(Veml6030::<()>::decode_read([frame[1], frame[2]]), val);
    }
}

#[test]
fn stop_and_start_toggle_shutdown_bit_only() {
    let mut config = AlsConfig(0);
    config.set_als_gain(ALSGain::AlsX2);
    config.set_als_it(ALSIt::It800ms);
    config.set_als_int_en(1);
    let mut sensor = Veml6030::new_with_config((), ADDR, config);
    let w = sensor.stop_write();
    assert_eq!(w, RegWrite { reg: REG_ALS_CONFIG, value: 0x08C3 });
    assert_eq!(sensor.als_config().als_sd(), 1);
    let w = sensor.start_write();
    assert_eq!(w, RegWrite { reg: REG_ALS_CONFIG, value: 0x08C2 });
    assert_eq!(sensor.als_config().als_sd(), 0);
    assert_eq!(sensor.als_config().als_gain(), ALSGain::AlsX2);
    assert_eq!(sensor.als_config().als_it(), ALSIt::It800ms);
}

#[test]
fn interrupt_write_sets_and_clears_bit_one() {
    assert_eq!(
        Veml6030::<()>::interrupt_write(0x0801, true),
        RegWrite { reg: REG_ALS_CONFIG, value: 0x0803 }
    );
    assert_eq!(
        Veml6030::<()>::interrupt_write(0x0803, false),
        RegWrite { reg: REG_ALS_CONFIG, value: 0x0801 }
    );
    assert_eq!(
        Veml6030::<()>::interrupt_write(0x0803, true),
        RegWrite { reg: REG_ALS_CONFIG, value: 0x0803 }
    );
}

#[test]
fn threshold_writes_low_then_high() {
    let (low, high) = Veml6030::<()>::threshold_writes(10, 5000);
    assert_eq!(low, RegWrite { reg: REG_ALS_WINDOWS_LOW, value: 10 });
    assert_eq!(high, RegWrite { reg: REG_ALS_WINDOW_HIGHT, value: 5000 });
}

#[test]
fn bus_gives_access_to_the_bus() {
    let mut sensor = Veml6030::new(1u8, ADDR);
    *sensor.bus() = 9;
    assert_eq!(sensor.release(), 9);
}

#[test]
fn resolution_compensates_gain_and_time() {
    let mut config = AlsConfig::default();
    config.set_als_gain(ALSGain::AlsX2);
    config.set_als_it(ALSIt::It800ms);
    let sensor = Veml6030::new_with_config((), ADDR, config);
    assert_eq!(sensor.resolution_fraction(), (5376, 100 * 16 * 800));
    let l = lux(&sensor, 1);
    assert!((l - 0.0042).abs() < 1e-7);

    let mut config = AlsConfig::default();
    config.set_als_gain(ALSGain::AlsDiv8);
    config.set_als_it(ALSIt::It25ms);
    let sensor = Veml6030::new_with_config((), ADDR, config);
    assert_eq!(sensor.resolution_fraction(), (5376, 100 * 1 * 25));
    let l = lux(&sensor, 1);
    assert!((l - 2.1504).abs() < 1e-4);
}

#[test]
fn read_requests_name_the_registers() {
    assert_eq!(Veml6030::<()>::read_request(0x04), [0x04]);
    assert_eq!(Veml6030::<()>::als_reg(), 0x04);
    assert_eq!(Veml6030::<()>::white_reg(), 0x05);
    assert_eq!(Veml6030::<()>::int_status_reg(), 0x06);
    assert_eq!(Veml6030::<()>::device_id_reg(), 0x07);
    assert_eq!(Veml6030::<()>::config_reg(), 0x00);
}
