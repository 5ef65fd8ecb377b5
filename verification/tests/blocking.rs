use veml6030::blocking::{DeviceID, Error, IntStatus, Veml6030};
use veml6030::error::Error as DriverError;

#[test]
fn blocking_frames_and_values() {
    assert_eq!(Veml6030::<()>::encode_write(0x00, 0x0201), [0x00, 0x01, 0x02]);
    for val in [0u16, 0x0201, 0x1234, 0xFFFF] {
        let f = Veml6030::<()>::encode_write(0x03, val);
        assert_eq!(Veml6030::<()>::decode_read([f[1], f[2]]), val);
    }
    assert_eq!(Veml6030::<()>::decode_read([0xAB, 0xCD]), 0xCDAB);
    assert_eq!(Veml6030::<()>::decode_read([0xFF, 0xFF]), 0xFFFF);
    assert_eq!(Veml6030::<()>::stop_value(0x0800), 0x0801);
    assert_eq!(Veml6030::<()>::stop_value(0x0801), 0x0801);
    assert_eq!(Veml6030::<()>::start_value(0x0803), 0x0802);
    assert_eq!(Veml6030::<()>::start_value(Veml6030::<()>::stop_value(0x1234)), 0x1234);
}

#[test]
fn blocking_sensor_holds_bus_and_address() {
    let mut s = Veml6030::new(3u16, 0x10);
    assert_eq!(s.addr(), 0x10);
    *s.bus() += 1;
    assert_eq!(s.release(), 4);
}

#[test]
fn blocking_decoders() {
    let id = DeviceID::from(0x0C81);
    assert_eq!((id.option_code, id.device_id), (0x0C, 0x81));
    assert_eq!(IntStatus::from(0x8000), IntStatus { int_th_low: true, int_th_high: false });
    assert_eq!(IntStatus::from(0x4001), IntStatus { int_th_low: false, int_th_high: true });
}

#[test]
fn error_messages() {
    assert_eq!(Error::I2CReadError.message(), "I2C read failure");
    assert_eq!(Error::I2CWriteError.message(), "I2C write failure");
    assert_eq!(DriverError::I2CReadError.message(), "I2C read failure");
    assert_eq!(DriverError::I2CWriteError.message(), "I2C write failure");
    assert_eq!(DriverError::InterruptError.message(), "Interrupt pin error");
    assert_eq!(DriverError::Timeout.message(), "Timeout error");
}

#[test]
fn blocking_read_requests_name_the_registers() {
    assert_eq!(Veml6030::<()>::read_request(0x07), [0x07]);
    assert_eq!(Veml6030::<()>::als_reg(), 0x04);
    assert_eq!(Veml6030::<()>::white_reg(), 0x05);
    assert_eq!(Veml6030::<()>::int_status_reg(), 0x06);
    assert_eq!(Veml6030::<()>::device_id_reg(), 0x07);
    assert_eq!(Veml6030::<()>::config_reg(), 0x00);
}
