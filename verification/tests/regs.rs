use veml6030::regs::{
    Als, AlsConfig, AlsIntStatus, AlsWHigh, AlsWLow, DeviceID, DeviceIDResult, IntStatus, PowerSaving,
    White, ALSGain, ALSIt, ALSPers, PsmMode,
};

#[test]
fn gain_codes_round_trip() {
    for g in [ALSGain::AlsX1, ALSGain::AlsX2, ALSGain::AlsDiv8, ALSGain::AlsDiv4] {
        assert_eq!(ALSGain::from(u8::from(g)), g);
    }
    assert_eq!(u8::from(ALSGain::AlsDiv8), 0b10);
    assert_eq!(ALSGain::from(7u8), ALSGain::AlsDiv4);
}

#[test]
fn integration_time_codes_round_trip() {
    for it in [ALSIt::It25ms, ALSIt::It50ms, ALSIt::It100ms, ALSIt::It200ms, ALSIt::It400ms, ALSIt::It800ms] {
        assert_eq!(ALSIt::from(u8::from(it)), it);
    }
    assert_eq!(u8::from(ALSIt::It25ms), 0x0c);
    assert_eq!(u8::from(ALSIt::It50ms), 0x08);
    assert_eq!(ALSIt::from(0x05u8), ALSIt::It800ms);
}

#[test]
fn persistence_and_psm_codes_round_trip() {
    for p in [ALSPers::Ap1, ALSPers::Ap2, ALSPers::Ap4, ALSPers::Ap8] {
        assert_eq!(ALSPers::from(u8::from(p)), p);
    }
    for m in [PsmMode::PSMMode1, PsmMode::PSMMode2, PsmMode::PSMMode3, PsmMode::PSMMode4] {
        assert_eq!(PsmMode::from(u8::from(m)), m);
    }
    assert_eq!(PsmMode::from(9u8), PsmMode::PSMMode4);
    assert_eq!(ALSPers::from(4u8), ALSPers::Ap8);
}

#[test]
fn gain_and_time_factors() {
    assert_eq!(ALSGain::AlsX1.eighths(), 8);
    assert_eq!(ALSGain::AlsX2.eighths(), 16);
    assert_eq!(ALSGain::AlsDiv8.eighths(), 1);
    assert_eq!(ALSGain::AlsDiv4.eighths(), 2);
    assert_eq!(ALSIt::It25ms.millis(), 25);
    assert_eq!(ALSIt::It800ms.millis(), 800);
}

#[test]
fn default_config_is_shut_down() {
    let c = AlsConfig::default();
    assert_eq!(c.0, 0x0001);
    assert_eq!(c.als_sd(), 1);
    assert_eq!(c.als_gain(), ALSGain::AlsX1);
    assert_eq!(c.als_it(), ALSIt::It100ms);
    assert_eq!(c.als_pers(), ALSPers::Ap1);
    assert_eq!(c.als_int_en(), 0);
    assert_eq!(c.resolution_fraction(), (5376, 80000));
}

#[test]
fn config_fields_land_in_their_bits() {
    let mut c = AlsConfig(0);
    c.set_als_gain(ALSGain::AlsDiv4);
    assert_eq!(c.0, 0x1800);
    c.set_als_it(ALSIt::It25ms);
    assert_eq!(c.0, 0x1B00);
    c.set_als_pers(ALSPers::Ap8);
    assert_eq!(c.0, 0x1B30);
    c.set_als_int_en(1);
    assert_eq!(c.0, 0x1B32);
    c.set_als_sd(3);
    assert_eq!(c.0, 0x1B33);
    c.set_als_gain(ALSGain::AlsX1);
    assert_eq!(c.0, 0x0333);
    assert_eq!(c.als_it(), ALSIt::It25ms);
    assert_eq!(c.als_pers(), ALSPers::Ap8);
    c.set_als_int_en(2);
    assert_eq!(c.als_int_en(), 0);
    assert_eq!(c.0, 0x0331);
}

#[test]
fn reserved_bits_are_kept() {
    let mut c = AlsConfig(0xE404);
    c.set_als_gain(ALSGain::AlsX2);
    c.set_als_sd(0);
    assert_eq!(c.0, 0xEC04);
}

#[test]
fn power_saving_fields() {
    let mut p = PowerSaving(0);
    p.set_psm(PsmMode::PSMMode4);
    p.set_psm_en(1);
    assert_eq!(p.0, 0x0007);
    assert_eq!(p.psm(), PsmMode::PSMMode4);
    assert_eq!(p.psm_en(), 1);
    p.set_psm(PsmMode::PSMMode2);
    assert_eq!(p.0, 0x0003);
}

#[test]
fn window_and_output_bytes() {
    let mut h = AlsWHigh(0);
    h.set_als_wh_msb(0x12);
    h.set_als_wh_lsb(0x34);
    assert_eq!(h.0, 0x1234);
    assert_eq!((h.als_wh_msb(), h.als_wh_lsb()), (0x12, 0x34));
    let mut l = AlsWLow(0xFFFF);
    l.set_als_wl_lsb(0);
    assert_eq!(l.0, 0xFF00);
    assert_eq!((l.als_wl_msb(), l.als_wl_lsb()), (0xFF, 0));
    assert_eq!((Als(0xABCD).als_high(), Als(0xABCD).als_low()), (0xAB, 0xCD));
    assert_eq!((White(0x0102).white_high(), White(0x0102).white_low()), (0x01, 0x02));
    assert_eq!((DeviceID(0xC481).slave_addr_op(), DeviceID(0xC481).device_id()), (0xC4, 0x81));
}

#[test]
fn int_status_flags() {
    assert_eq!(IntStatus::from(0x8000), IntStatus { int_th_low: true, int_th_high: false });
    assert_eq!(IntStatus::from(0x4000), IntStatus { int_th_low: false, int_th_high: true });
    assert_eq!(IntStatus::from(0xC000), IntStatus { int_th_low: true, int_th_high: true });
    assert_eq!(IntStatus::from(0x3FFF), IntStatus { int_th_low: false, int_th_high: false });
    assert_eq!(IntStatus::default(), IntStatus { int_th_low: false, int_th_high: false });
    assert!(AlsIntStatus(0x8001).int_th_low());
    assert!(!AlsIntStatus(0x8001).int_th_high());
}

#[test]
fn device_id_split() {
    let id = DeviceIDResult::from(0xC481);
    assert_eq!(id.option_code, 0xC4);
    assert_eq!(id.device_id, 0x81);
}
