//! Register map of the VEML6030: addresses, the codes of the configuration
//! enums, and the bit fields of each 16-bit register.
use crate::bits::{
    field, field_fits, fields_disjoint, get_field, lemma_field_bound, lemma_field_of_with_field,
    lemma_field_of_with_other_field, lemma_low_mask, set_field, with_field,
};
use vstd::prelude::*;

verus! {

/// ALS configuration register.
pub const REG_ALS_CONFIG: u8 = 0x00;
/// High threshold window register.
pub const REG_ALS_WINDOW_HIGHT: u8 = 0x01;
/// Low threshold window register.
pub const REG_ALS_WINDOWS_LOW: u8 = 0x02;
/// Power saving register.
pub const REG_POWER_SAVING: u8 = 0x03;
/// ALS output register.
pub const REG_ALS: u8 = 0x04;
/// White channel output register.
pub const REG_WHITE: u8 = 0x05;
/// Interrupt status register.
pub const REG_ALS_INT: u8 = 0x06;
/// Device identification register.
pub const REG_DEVICE_ID: u8 = 0x07;

/// ALS gain setting.
#[derive(Debug, PartialEq, Eq, Structural, PartialOrd, Copy, Clone)]
pub enum ALSGain {
    AlsX1,
    AlsX2,
    AlsDiv8,
    AlsDiv4,
}

/// ALS integration time setting.
#[derive(Debug, PartialEq, Eq, Structural, PartialOrd, Copy, Clone)]
pub enum ALSIt {
    It25ms,
    It50ms,
    It100ms,
    It200ms,
    It400ms,
    It800ms,
}

/// ALS interrupt persistence setting.
#[derive(Debug, PartialEq, Eq, Structural, PartialOrd, Copy, Clone)]
pub enum ALSPers {
    Ap1,
    Ap2,
    Ap4,
    Ap8,
}

/// Power saving mode.
#[derive(Debug, PartialEq, Eq, Structural, PartialOrd, Copy, Clone)]
pub enum PsmMode {
    PSMMode1,
    PSMMode2,
    PSMMode3,
    PSMMode4,
}

impl ALSGain {
    /// The two-bit code of the gain in the configuration register.
    pub open spec fn spec_code(self) -> u8 {
        match self {
            ALSGain::AlsX1 => 0,
            ALSGain::AlsX2 => 1,
            ALSGain::AlsDiv8 => 2,
            ALSGain::AlsDiv4 => 3,
        }
    }

    /// The gain that a code stands for; every code from 3 up reads as `AlsDiv4`.
    pub open spec fn spec_from_code(c: u8) -> ALSGain {
        if c == 0 {
            ALSGain::AlsX1
        } else if c == 1 {
            ALSGain::AlsX2
        } else if c == 2 {
            ALSGain::AlsDiv8
        } else {
            ALSGain::AlsDiv4
        }
    }

    /// The gain as a multiple of 1/8 (`AlsX1` is 8/8, `AlsDiv8` is 1/8).
    pub open spec fn spec_eighths(self) -> u32 {
        match self {
            ALSGain::AlsX1 => 8,
            ALSGain::AlsX2 => 16,
            ALSGain::AlsDiv8 => 1,
            ALSGain::AlsDiv4 => 2,
        }
    }

    /// The gain as a multiple of 1/8.
    pub fn eighths(&self) -> (r: u32)
        ensures
            r == self.spec_eighths(),
    {
        match self {
            ALSGain::AlsX1 => 8,
            ALSGain::AlsX2 => 16,
            ALSGain::AlsDiv8 => 1,
            ALSGain::AlsDiv4 => 2,
        }
    }
}

impl ALSIt {
    /// The four-bit code of the integration time in the configuration register.
    pub open spec fn spec_code(self) -> u8 {
        match self {
            ALSIt::It25ms => 0x0c,
            ALSIt::It50ms => 0x08,
            ALSIt::It100ms => 0x00,
            ALSIt::It200ms => 0x01,
            ALSIt::It400ms => 0x02,
            ALSIt::It800ms => 0x03,
        }
    }

    /// The integration time that a code stands for; every code without a
    /// setting of its own reads as `It800ms`.
    pub open spec fn spec_from_code(c: u8) -> ALSIt {
        if c == 0x0c {
            ALSIt::It25ms
        } else if c == 0x08 {
            ALSIt::It50ms
        } else if c == 0x00 {
            ALSIt::It100ms
        } else if c == 0x01 {
            ALSIt::It200ms
        } else if c == 0x02 {
            ALSIt::It400ms
        } else {
            ALSIt::It800ms
        }
    }

    /// The integration time in milliseconds.
    pub open spec fn spec_millis(self) -> u32 {
        match self {
            ALSIt::It25ms => 25,
            ALSIt::It50ms => 50,
            ALSIt::It100ms => 100,
            ALSIt::It200ms => 200,
            ALSIt::It400ms => 400,
            ALSIt::It800ms => 800,
        }
    }

    /// The integration time in milliseconds.
    pub fn millis(&self) -> (r: u32)
        ensures
            r == self.spec_millis(),
    {
        match self {
            ALSIt::It25ms => 25,
            ALSIt::It50ms => 50,
            ALSIt::It100ms => 100,
            ALSIt::It200ms => 200,
            ALSIt::It400ms => 400,
            ALSIt::It800ms => 800,
        }
    }
}

impl ALSPers {
    /// The two-bit code of the persistence in the configuration register.
    pub open spec fn spec_code(self) -> u8 {
        match self {
            ALSPers::Ap1 => 0,
            ALSPers::Ap2 => 1,
            ALSPers::Ap4 => 2,
            ALSPers::Ap8 => 3,
        }
    }

    /// The persistence that a code stands for; every code from 3 up reads as `Ap8`.
    pub open spec fn spec_from_code(c: u8) -> ALSPers {
        if c == 0 {
            ALSPers::Ap1
        } else if c == 1 {
            ALSPers::Ap2
        } else if c == 2 {
            ALSPers::Ap4
        } else {
            ALSPers::Ap8
        }
    }
}

impl PsmMode {
    /// The two-bit code of the mode in the power saving register.
    pub open spec fn spec_code(self) -> u8 {
        match self {
            PsmMode::PSMMode1 => 0,
            PsmMode::PSMMode2 => 1,
            PsmMode::PSMMode3 => 2,
            PsmMode::PSMMode4 => 3,
        }
    }

    /// The mode that a code stands for; every code from 3 up reads as `PSMMode4`.
    pub open spec fn spec_from_code(c: u8) -> PsmMode {
        if c == 0 {
            PsmMode::PSMMode1
        } else if c == 1 {
            PsmMode::PSMMode2
        } else if c == 2 {
            PsmMode::PSMMode3
        } else {
            PsmMode::PSMMode4
        }
    }
}

impl From<u8> for PsmMode {
    fn from(value: u8) -> (r: Self) {
        match value {
            0b00 => PsmMode::PSMMode1,
            0b01 => PsmMode::PSMMode2,
            0b10 => PsmMode::PSMMode3,
            0b11 => PsmMode::PSMMode4,
            _ => PsmMode::PSMMode4,
        }
    }
}

impl vstd::std_specs::convert::FromSpecImpl<u8> for PsmMode {
    open spec fn obeys_from_spec() -> bool {
        true
    }

    open spec fn from_spec(v: u8) -> PsmMode {
        PsmMode::spec_from_code(v)
    }
}

impl From<PsmMode> for u8 {
    fn from(val: PsmMode) -> (r: Self) {
        match val {
            PsmMode::PSMMode1 => 0b00,
            PsmMode::PSMMode2 => 0b01,
            PsmMode::PSMMode3 => 0b10,
            PsmMode::PSMMode4 => 0b11,
        }
    }
}

impl vstd::std_specs::convert::FromSpecImpl<PsmMode> for u8 {
    open spec fn obeys_from_spec() -> bool {
        true
    }

    open spec fn from_spec(v: PsmMode) -> u8 {
        v.spec_code()
    }
}

impl From<u8> for ALSPers {
    fn from(value: u8) -> (r: Self) {
        match value {
            0b00 => ALSPers::Ap1,
            0b01 => ALSPers::Ap2,
            0b10 => ALSPers::Ap4,
            _ => ALSPers::Ap8,
        }
    }
}

impl vstd::std_specs::convert::FromSpecImpl<u8> for ALSPers {
    open spec fn obeys_from_spec() -> bool {
        true
    }

    open spec fn from_spec(v: u8) -> ALSPers {
        ALSPers::spec_from_code(v)
    }
}

impl From<ALSPers> for u8 {
    fn from(val: ALSPers) -> (r: Self) {
        match val {
            ALSPers::Ap1 => 0x00,
            ALSPers::Ap2 => 0x01,
            ALSPers::Ap4 => 0x02,
            ALSPers::Ap8 => 0x03,
        }
    }
}

impl vstd::std_specs::convert::FromSpecImpl<ALSPers> for u8 {
    open spec fn obeys_from_spec() -> bool {
        true
    }

    open spec fn from_spec(v: ALSPers) -> u8 {
        v.spec_code()
    }
}

impl From<u8> for ALSIt {
    fn from(value: u8) -> (r: Self) {
        match value {
            0b1100 => ALSIt::It25ms,
            0b1000 => ALSIt::It50ms,
            0b0000 => ALSIt::It100ms,
            0b0001 => ALSIt::It200ms,
            0b0010 => ALSIt::It400ms,
            _ => ALSIt::It800ms,
        }
    }
}

impl vstd::std_specs::convert::FromSpecImpl<u8> for ALSIt {
    open spec fn obeys_from_spec() -> bool {
        true
    }

    open spec fn from_spec(v: u8) -> ALSIt {
        ALSIt::spec_from_code(v)
    }
}

impl From<ALSIt> for u8 {
    fn from(val: ALSIt) -> (r: Self) {
        match val {
            ALSIt::It25ms => 0x0c,
            ALSIt::It50ms => 0x08,
            ALSIt::It100ms => 0x00,
            ALSIt::It200ms => 0x01,
            ALSIt::It400ms => 0x02,
            ALSIt::It800ms => 0x03,
        }
    }
}

impl vstd::std_specs::convert::FromSpecImpl<ALSIt> for u8 {
    open spec fn obeys_from_spec() -> bool {
        true
    }

    open spec fn from_spec(v: ALSIt) -> u8 {
        v.spec_code()
    }
}

impl From<u8> for ALSGain {
    fn from(value: u8) -> (r: Self) {
        match value {
            0b00 => ALSGain::AlsX1,
            0b01 => ALSGain::AlsX2,
            0b10 => ALSGain::AlsDiv8,
            _ => ALSGain::AlsDiv4,
        }
    }
}

impl vstd::std_specs::convert::FromSpecImpl<u8> for ALSGain {
    open spec fn obeys_from_spec() -> bool {
        true
    }

    open spec fn from_spec(v: u8) -> ALSGain {
        ALSGain::spec_from_code(v)
    }
}

impl From<ALSGain> for u8 {
    fn from(val: ALSGain) -> (r: Self) {
        match val {
            ALSGain::AlsX1 => 0b00,
            ALSGain::AlsX2 => 0b01,
            ALSGain::AlsDiv8 => 0b10,
            ALSGain::AlsDiv4 => 0b11,
        }
    }
}

impl vstd::std_specs::convert::FromSpecImpl<ALSGain> for u8 {
    open spec fn obeys_from_spec() -> bool {
        true
    }

    open spec fn from_spec(v: ALSGain) -> u8 {
        v.spec_code()
    }
}

/// Decoding the code of a setting gives back that setting, for each of the four setting kinds.
pub proof fn law_code_round_trip(g: ALSGain, it: ALSIt, p: ALSPers, m: PsmMode)
    ensures
        ALSGain::spec_from_code(g.spec_code()) == g,
        ALSIt::spec_from_code(it.spec_code()) == it,
        ALSPers::spec_from_code(p.spec_code()) == p,
        PsmMode::spec_from_code(m.spec_code()) == m,
{
}

/// Every two-bit code decodes to the gain, persistence and power saving mode
/// whose code it is; each of the six integration time codes (0, 1, 2, 3, 8
/// and 12) decodes to the integration time whose code it is.
pub proof fn law_code_of_decoded(c: u8)
    ensures
        c < 4 ==> ALSGain::spec_from_code(c).spec_code() == c,
        c < 4 ==> ALSPers::spec_from_code(c).spec_code() == c,
        c < 4 ==> PsmMode::spec_from_code(c).spec_code() == c,
        (c < 4 || c == 8 || c == 12) ==> ALSIt::spec_from_code(c).spec_code() == c,
{
}

/// The field layout of the registers: each field lies inside the word, and
/// the fields of one register do not overlap.
proof fn lemma_register_layout()
    by (bit_vector)
    ensures
        field_fits(0, 1),
        field_fits(0, 255),
        field_fits(1, 1),
        field_fits(1, 3),
        field_fits(4, 3),
        field_fits(6, 15),
        field_fits(8, 255),
        field_fits(11, 3),
        field_fits(14, 1),
        field_fits(15, 1),
        fields_disjoint(0, 1, 1, 1),
        fields_disjoint(0, 1, 1, 3),
        fields_disjoint(0, 1, 4, 3),
        fields_disjoint(0, 1, 6, 15),
        fields_disjoint(0, 1, 11, 3),
        fields_disjoint(0, 255, 8, 255),
        fields_disjoint(1, 1, 0, 1),
        fields_disjoint(1, 1, 4, 3),
        fields_disjoint(1, 1, 6, 15),
        fields_disjoint(1, 1, 11, 3),
        fields_disjoint(1, 3, 0, 1),
        fields_disjoint(4, 3, 0, 1),
        fields_disjoint(4, 3, 1, 1),
        fields_disjoint(4, 3, 6, 15),
        fields_disjoint(4, 3, 11, 3),
        fields_disjoint(6, 15, 0, 1),
        fields_disjoint(6, 15, 1, 1),
        fields_disjoint(6, 15, 4, 3),
        fields_disjoint(6, 15, 11, 3),
        fields_disjoint(8, 255, 0, 255),
        fields_disjoint(11, 3, 0, 1),
        fields_disjoint(11, 3, 1, 1),
        fields_disjoint(11, 3, 4, 3),
        fields_disjoint(11, 3, 6, 15),
{
}

/// The ALS configuration register (`ALS_CONF`).
///
/// Bits 12..11 hold the gain, bits 9..6 the integration time, bits 5..4 the
/// persistence, bit 1 enables the interrupt and bit 0 shuts the sensor down.
#[derive(Copy, Clone, Debug)]
pub struct AlsConfig(pub u16);

impl AlsConfig {
    pub open spec fn spec_als_gain(self) -> ALSGain {
        ALSGain::spec_from_code(field(self.0, 11, 3) as u8)
    }

    pub open spec fn spec_als_it(self) -> ALSIt {
        ALSIt::spec_from_code(field(self.0, 6, 15) as u8)
    }

    pub open spec fn spec_als_pers(self) -> ALSPers {
        ALSPers::spec_from_code(field(self.0, 4, 3) as u8)
    }

    pub open spec fn spec_als_int_en(self) -> u8 {
        field(self.0, 1, 1) as u8
    }

    pub open spec fn spec_als_sd(self) -> u8 {
        field(self.0, 0, 1) as u8
    }

    pub open spec fn spec_with_gain(self, gain: ALSGain) -> AlsConfig {
        AlsConfig(with_field(self.0, 11, 3, gain.spec_code() as u16))
    }

    pub open spec fn spec_with_it(self, it: ALSIt) -> AlsConfig {
        AlsConfig(with_field(self.0, 6, 15, it.spec_code() as u16))
    }

    pub open spec fn spec_with_pers(self, pers: ALSPers) -> AlsConfig {
        AlsConfig(with_field(self.0, 4, 3, pers.spec_code() as u16))
    }

    pub open spec fn spec_with_int_en(self, v: u8) -> AlsConfig {
        AlsConfig(with_field(self.0, 1, 1, v as u16))
    }

    pub open spec fn spec_with_sd(self, v: u8) -> AlsConfig {
        AlsConfig(with_field(self.0, 0, 1, v as u16))
    }

    /// The gain field.
    pub fn als_gain(&self) -> (r: ALSGain)
        ensures
            r == self.spec_als_gain(),
    {
        ALSGain::from(get_field(self.0, 11, 3) as u8)
    }

    /// Writes the gain field.
    pub fn set_als_gain(&mut self, gain: ALSGain)
        ensures
            *final(self) == old(self).spec_with_gain(gain),
    {
        self.0 = set_field(self.0, 11, 3, u8::from(gain) as u16);
    }

    /// The integration time field.
    pub fn als_it(&self) -> (r: ALSIt)
        ensures
            r == self.spec_als_it(),
    {
        ALSIt::from(get_field(self.0, 6, 15) as u8)
    }

    /// Writes the integration time field.
    pub fn set_als_it(&mut self, it: ALSIt)
        ensures
            *final(self) == old(self).spec_with_it(it),
    {
        self.0 = set_field(self.0, 6, 15, u8::from(it) as u16);
    }

    /// The persistence field.
    pub fn als_pers(&self) -> (r: ALSPers)
        ensures
            r == self.spec_als_pers(),
    {
        ALSPers::from(get_field(self.0, 4, 3) as u8)
    }

    /// Writes the persistence field.
    pub fn set_als_pers(&mut self, pers: ALSPers)
        ensures
            *final(self) == old(self).spec_with_pers(pers),
    {
        self.0 = set_field(self.0, 4, 3, u8::from(pers) as u16);
    }

    /// The interrupt enable bit.
    pub fn als_int_en(&self) -> (r: u8)
        ensures
            r == self.spec_als_int_en(),
    {
        get_field(self.0, 1, 1) as u8
    }

    /// Writes the lowest bit of `v` into the interrupt enable bit.
    pub fn set_als_int_en(&mut self, v: u8)
        ensures
            *final(self) == old(self).spec_with_int_en(v),
    {
        self.0 = set_field(self.0, 1, 1, v as u16);
    }

    /// The shutdown bit (1: shut down, 0: measuring).
    pub fn als_sd(&self) -> (r: u8)
        ensures
            r == self.spec_als_sd(),
    {
        get_field(self.0, 0, 1) as u8
    }

    /// Writes the lowest bit of `v` into the shutdown bit.
    pub fn set_als_sd(&mut self, v: u8)
        ensures
            *final(self) == old(self).spec_with_sd(v),
    {
        self.0 = set_field(self.0, 0, 1, v as u16);
    }
}

impl Default for AlsConfig {
    /// The power-on configuration: every field zero but the shutdown bit.
    fn default() -> (r: Self)
        ensures
            r == AlsConfig(1),
    {
        let mut config = AlsConfig(0);
        config.set_als_sd(1);
        assert(with_field(0, 0, 1, 1) == 1) by (bit_vector);
        config
    }
}

/// Writing a field of the configuration register and reading it back gives
/// the value written (cut to the field's width); the other fields keep their values.
pub proof fn law_als_config_fields(c: AlsConfig, gain: ALSGain, it: ALSIt, pers: ALSPers, v: u8)
    ensures
        c.spec_with_gain(gain).spec_als_gain() == gain,
        c.spec_with_gain(gain).spec_als_it() == c.spec_als_it(),
        c.spec_with_gain(gain).spec_als_pers() == c.spec_als_pers(),
        c.spec_with_gain(gain).spec_als_int_en() == c.spec_als_int_en(),
        c.spec_with_gain(gain).spec_als_sd() == c.spec_als_sd(),
        c.spec_with_it(it).spec_als_gain() == c.spec_als_gain(),
        c.spec_with_it(it).spec_als_it() == it,
        c.spec_with_it(it).spec_als_pers() == c.spec_als_pers(),
        c.spec_with_it(it).spec_als_int_en() == c.spec_als_int_en(),
        c.spec_with_it(it).spec_als_sd() == c.spec_als_sd(),
        c.spec_with_pers(pers).spec_als_gain() == c.spec_als_gain(),
        c.spec_with_pers(pers).spec_als_it() == c.spec_als_it(),
        c.spec_with_pers(pers).spec_als_pers() == pers,
        c.spec_with_pers(pers).spec_als_int_en() == c.spec_als_int_en(),
        c.spec_with_pers(pers).spec_als_sd() == c.spec_als_sd(),
        c.spec_with_int_en(v).spec_als_gain() == c.spec_als_gain(),
        c.spec_with_int_en(v).spec_als_it() == c.spec_als_it(),
        c.spec_with_int_en(v).spec_als_pers() == c.spec_als_pers(),
        c.spec_with_int_en(v).spec_als_int_en() == v % 2,
        c.spec_with_int_en(v).spec_als_sd() == c.spec_als_sd(),
        c.spec_with_sd(v).spec_als_gain() == c.spec_als_gain(),
        c.spec_with_sd(v).spec_als_it() == c.spec_als_it(),
        c.spec_with_sd(v).spec_als_pers() == c.spec_als_pers(),
        c.spec_with_sd(v).spec_als_int_en() == c.spec_als_int_en(),
        c.spec_with_sd(v).spec_als_sd() == v % 2,
{
    lemma_register_layout();
    lemma_low_mask(gain.spec_code() as u16, 3);
    lemma_low_mask(it.spec_code() as u16, 15);
    lemma_low_mask(pers.spec_code() as u16, 3);
    lemma_low_mask(v as u16, 1);
    lemma_field_of_with_field(c.0, 11, 3, gain.spec_code() as u16);
    lemma_field_bound(c.0, 11, 3);
    lemma_field_of_with_other_field(c.0, 11, 3, gain.spec_code() as u16, 6, 15);
    lemma_field_of_with_other_field(c.0, 11, 3, gain.spec_code() as u16, 4, 3);
    lemma_field_of_with_other_field(c.0, 11, 3, gain.spec_code() as u16, 1, 1);
    lemma_field_of_with_other_field(c.0, 11, 3, gain.spec_code() as u16, 0, 1);
    lemma_field_of_with_field(c.0, 6, 15, it.spec_code() as u16);
    lemma_field_bound(c.0, 6, 15);
    lemma_field_of_with_other_field(c.0, 6, 15, it.spec_code() as u16, 11, 3);
    lemma_field_of_with_other_field(c.0, 6, 15, it.spec_code() as u16, 4, 3);
    lemma_field_of_with_other_field(c.0, 6, 15, it.spec_code() as u16, 1, 1);
    lemma_field_of_with_other_field(c.0, 6, 15, it.spec_code() as u16, 0, 1);
    lemma_field_of_with_field(c.0, 4, 3, pers.spec_code() as u16);
    lemma_field_bound(c.0, 4, 3);
    lemma_field_of_with_other_field(c.0, 4, 3, pers.spec_code() as u16, 11, 3);
    lemma_field_of_with_other_field(c.0, 4, 3, pers.spec_code() as u16, 6, 15);
    lemma_field_of_with_other_field(c.0, 4, 3, pers.spec_code() as u16, 1, 1);
    lemma_field_of_with_other_field(c.0, 4, 3, pers.spec_code() as u16, 0, 1);
    lemma_field_of_with_field(c.0, 1, 1, v as u16);
    lemma_field_bound(c.0, 1, 1);
    lemma_field_of_with_other_field(c.0, 1, 1, v as u16, 11, 3);
    lemma_field_of_with_other_field(c.0, 1, 1, v as u16, 6, 15);
    lemma_field_of_with_other_field(c.0, 1, 1, v as u16, 4, 3);
    lemma_field_of_with_other_field(c.0, 1, 1, v as u16, 0, 1);
    lemma_field_of_with_field(c.0, 0, 1, v as u16);
    lemma_field_bound(c.0, 0, 1);
    lemma_field_of_with_other_field(c.0, 0, 1, v as u16, 11, 3);
    lemma_field_of_with_other_field(c.0, 0, 1, v as u16, 6, 15);
    lemma_field_of_with_other_field(c.0, 0, 1, v as u16, 4, 3);
    lemma_field_of_with_other_field(c.0, 0, 1, v as u16, 1, 1);
}

impl AlsConfig {
    /// The resolution (lux per output count) of this configuration as the
    /// fraction `r.0 / r.1`: 0.0672 lux at gain 1 and 100 ms, scaled by the
    /// reciprocals of the gain and of the integration time.
    pub open spec fn spec_resolution_fraction(self) -> (u32, u32) {
        (5376, (100 * self.spec_als_gain().spec_eighths() * self.spec_als_it().spec_millis()) as u32)
    }

    /// The resolution (lux per output count) as an exact fraction.
    pub fn resolution_fraction(&self) -> (r: (u32, u32))
        ensures
            r == self.spec_resolution_fraction(),
            r.0 == 5376,
            r.1 == 100 * self.spec_als_gain().spec_eighths() * self.spec_als_it().spec_millis(),
            r.1 > 0,
    {
        let eighths = self.als_gain().eighths();
        let millis = self.als_it().millis();
        assert(100 * eighths * millis <= 1_280_000) by (nonlinear_arith)
            requires
                eighths <= 16,
                millis <= 800,
        ;
        assert(100 * eighths * millis > 0) by (nonlinear_arith)
            requires
                eighths >= 1,
                millis >= 25,
        ;
        (5376, 100 * eighths * millis)
    }
}

/// The resolution compensates gain and integration time: resolution times
/// gain times integration time (in ms) is 6.72 lux for every configuration.
pub proof fn law_resolution_compensation(c: AlsConfig)
    ensures
        ({
            let (num, den) = c.spec_resolution_fraction();
            num * c.spec_als_gain().spec_eighths() * c.spec_als_it().spec_millis() * 100 == 672 * 8 * den
        }),
{
    let e = c.spec_als_gain().spec_eighths();
    let ms = c.spec_als_it().spec_millis();
    assert(100 * e * ms <= 1_280_000) by (nonlinear_arith)
        requires
            e <= 16,
            ms <= 800,
    ;
    assert(5376 * e * ms * 100 == 672 * 8 * (100 * e * ms)) by (nonlinear_arith);
}

/// The power saving register (`PSM`): bits 2..1 hold the mode, bit 0 enables it.
#[derive(Copy, Clone, Debug)]
pub struct PowerSaving(pub u16);

impl PowerSaving {
    pub open spec fn spec_psm(self) -> PsmMode {
        PsmMode::spec_from_code(field(self.0, 1, 3) as u8)
    }

    pub open spec fn spec_psm_en(self) -> u8 {
        field(self.0, 0, 1) as u8
    }

    pub open spec fn spec_with_psm(self, mode: PsmMode) -> PowerSaving {
        PowerSaving(with_field(self.0, 1, 3, mode.spec_code() as u16))
    }

    pub open spec fn spec_with_psm_en(self, v: u8) -> PowerSaving {
        PowerSaving(with_field(self.0, 0, 1, v as u16))
    }

    /// The power saving mode field.
    pub fn psm(&self) -> (r: PsmMode)
        ensures
            r == self.spec_psm(),
    {
        PsmMode::from(get_field(self.0, 1, 3) as u8)
    }

    /// Writes the power saving mode field.
    pub fn set_psm(&mut self, mode: PsmMode)
        ensures
            *final(self) == old(self).spec_with_psm(mode),
    {
        self.0 = set_field(self.0, 1, 3, u8::from(mode) as u16);
    }

    /// The power saving enable bit.
    pub fn psm_en(&self) -> (r: u8)
        ensures
            r == self.spec_psm_en(),
    {
        get_field(self.0, 0, 1) as u8
    }

    /// Writes the lowest bit of `v` into the power saving enable bit.
    pub fn set_psm_en(&mut self, v: u8)
        ensures
            *final(self) == old(self).spec_with_psm_en(v),
    {
        self.0 = set_field(self.0, 0, 1, v as u16);
    }
}

/// Writing a field of the power saving register and reading it back gives the
/// value written; the other field keeps its value.
pub proof fn law_power_saving_fields(p: PowerSaving, mode: PsmMode, v: u8)
    ensures
        p.spec_with_psm(mode).spec_psm() == mode,
        p.spec_with_psm(mode).spec_psm_en() == p.spec_psm_en(),
        p.spec_with_psm_en(v).spec_psm() == p.spec_psm(),
        p.spec_with_psm_en(v).spec_psm_en() == v % 2,
{
    lemma_register_layout();
    lemma_low_mask(mode.spec_code() as u16, 3);
    lemma_low_mask(v as u16, 1);
    lemma_field_of_with_field(p.0, 1, 3, mode.spec_code() as u16);
    lemma_field_of_with_other_field(p.0, 1, 3, mode.spec_code() as u16, 0, 1);
    lemma_field_of_with_field(p.0, 0, 1, v as u16);
    lemma_field_of_with_other_field(p.0, 0, 1, v as u16, 1, 3);
    lemma_field_bound(p.0, 1, 3);
    lemma_field_bound(p.0, 0, 1);
}

/// The high threshold window register (`ALS_WH`).
#[derive(Copy, Clone, Debug)]
pub struct AlsWHigh(pub u16);

impl AlsWHigh {
    /// The high byte of the threshold.
    pub fn als_wh_msb(&self) -> (r: u8)
        ensures
            r == field(self.0, 8, 255),
    {
        get_field(self.0, 8, 255) as u8
    }

    /// Writes the high byte of the threshold.
    pub fn set_als_wh_msb(&mut self, v: u8)
        ensures
            final(self).0 == with_field(old(self).0, 8, 255, v as u16),
    {
        self.0 = set_field(self.0, 8, 255, v as u16);
    }

    /// The low byte of the threshold.
    pub fn als_wh_lsb(&self) -> (r: u8)
        ensures
            r == field(self.0, 0, 255),
    {
        get_field(self.0, 0, 255) as u8
    }

    /// Writes the low byte of the threshold.
    pub fn set_als_wh_lsb(&mut self, v: u8)
        ensures
            final(self).0 == with_field(old(self).0, 0, 255, v as u16),
    {
        self.0 = set_field(self.0, 0, 255, v as u16);
    }
}

/// The low threshold window register (`ALS_WL`).
#[derive(Copy, Clone, Debug)]
pub struct AlsWLow(pub u16);

impl AlsWLow {
    /// The high byte of the threshold.
    pub fn als_wl_msb(&self) -> (r: u8)
        ensures
            r == field(self.0, 8, 255),
    {
        get_field(self.0, 8, 255) as u8
    }

    /// Writes the high byte of the threshold.
    pub fn set_als_wl_msb(&mut self, v: u8)
        ensures
            final(self).0 == with_field(old(self).0, 8, 255, v as u16),
    {
        self.0 = set_field(self.0, 8, 255, v as u16);
    }

    /// The low byte of the threshold.
    pub fn als_wl_lsb(&self) -> (r: u8)
        ensures
            r == field(self.0, 0, 255),
    {
        get_field(self.0, 0, 255) as u8
    }

    /// Writes the low byte of the threshold.
    pub fn set_als_wl_lsb(&mut self, v: u8)
        ensures
            final(self).0 == with_field(old(self).0, 0, 255, v as u16),
    {
        self.0 = set_field(self.0, 0, 255, v as u16);
    }
}

/// The two bytes of a word: the high byte is the word divided by 256, the low
/// byte its remainder, and writing one byte leaves the other as it was.
pub proof fn law_word_bytes(word: u16, v: u8)
    ensures
        field(word, 8, 255) == word / 256,
        field(word, 0, 255) == word % 256,
        field(with_field(word, 8, 255, v as u16), 8, 255) == v,
        field(with_field(word, 8, 255, v as u16), 0, 255) == field(word, 0, 255),
        field(with_field(word, 0, 255, v as u16), 0, 255) == v,
        field(with_field(word, 0, 255, v as u16), 8, 255) == field(word, 8, 255),
{
    lemma_register_layout();
    lemma_low_mask(v as u16, 255);
    lemma_field_of_with_field(word, 8, 255, v as u16);
    lemma_field_of_with_other_field(word, 8, 255, v as u16, 0, 255);
    lemma_field_of_with_field(word, 0, 255, v as u16);
    lemma_field_of_with_other_field(word, 0, 255, v as u16, 8, 255);
    assert((word >> 8) & 255 == word / 256 && (word >> 0) & 255 == word % 256) by (bit_vector);
}

/// The ALS output register (`ALS`).
#[derive(Copy, Clone, Debug)]
pub struct Als(pub u16);

impl Als {
    /// The high byte of the output.
    pub fn als_high(&self) -> (r: u8)
        ensures
            r == field(self.0, 8, 255),
    {
        get_field(self.0, 8, 255) as u8
    }

    /// The low byte of the output.
    pub fn als_low(&self) -> (r: u8)
        ensures
            r == field(self.0, 0, 255),
    {
        get_field(self.0, 0, 255) as u8
    }
}

/// The white channel output register (`WHITE`).
#[derive(Copy, Clone, Debug)]
pub struct White(pub u16);

impl White {
    /// The high byte of the output.
    pub fn white_high(&self) -> (r: u8)
        ensures
            r == field(self.0, 8, 255),
    {
        get_field(self.0, 8, 255) as u8
    }

    /// The low byte of the output.
    pub fn white_low(&self) -> (r: u8)
        ensures
            r == field(self.0, 0, 255),
    {
        get_field(self.0, 0, 255) as u8
    }
}

/// The device identification register (`ID`).
#[derive(Copy, Clone, Debug)]
pub struct DeviceID(pub u16);

impl DeviceID {
    /// The slave address option code, in the high byte.
    pub fn slave_addr_op(&self) -> (r: u8)
        ensures
            r == field(self.0, 8, 255),
    {
        get_field(self.0, 8, 255) as u8
    }

    /// The device identification code, in the low byte.
    pub fn device_id(&self) -> (r: u8)
        ensures
            r == field(self.0, 0, 255),
    {
        get_field(self.0, 0, 255) as u8
    }
}

/// The interrupt status register (`ALS_INT`): bit 15 flags a crossing of the
/// low threshold, bit 14 of the high threshold.
#[derive(Copy, Clone, Debug)]
pub struct AlsIntStatus(pub u16);

impl AlsIntStatus {
    pub open spec fn spec_int_th_low(self) -> bool {
        field(self.0, 15, 1) == 1
    }

    pub open spec fn spec_int_th_high(self) -> bool {
        field(self.0, 14, 1) == 1
    }

    /// The low threshold flag.
    pub fn int_th_low(&self) -> (r: bool)
        ensures
            r == self.spec_int_th_low(),
    {
        get_field(self.0, 15, 1) == 1
    }

    /// The high threshold flag.
    pub fn int_th_high(&self) -> (r: bool)
        ensures
            r == self.spec_int_th_high(),
    {
        get_field(self.0, 14, 1) == 1
    }
}

/// The two threshold flags: the low one is the top bit of the register, the
/// high one the bit below it.
pub proof fn law_int_status_bits(v: u16)
    ensures
        AlsIntStatus(v).spec_int_th_low() <==> v >= 0x8000,
        AlsIntStatus(v).spec_int_th_high() <==> v % 0x8000 >= 0x4000,
{
    assert(((v >> 15) & 1 == 1) <==> v >= 0x8000) by (bit_vector);
    assert(((v >> 14) & 1 == 1) <==> v % 0x8000 >= 0x4000) by (bit_vector);
}

/// The device identification split into its two codes.
#[derive(Debug)]
pub struct DeviceIDResult {
    pub option_code: u8,
    pub device_id: u8,
}

impl From<u16> for DeviceIDResult {
    fn from(value: u16) -> (r: Self) {
        DeviceIDResult { option_code: (value >> 8) as u8, device_id: (value & 0xff) as u8 }
    }
}

impl vstd::std_specs::convert::FromSpecImpl<u16> for DeviceIDResult {
    open spec fn obeys_from_spec() -> bool {
        true
    }

    open spec fn from_spec(v: u16) -> DeviceIDResult {
        DeviceIDResult { option_code: (v >> 8) as u8, device_id: (v & 0xff) as u8 }
    }
}

/// The option code is the high byte of the register and the identification
/// code the low byte, so together they give back the register value.
pub proof fn law_device_id_split(v: u16)
    ensures
        <DeviceIDResult as vstd::std_specs::convert::FromSpec<u16>>::from_spec(v).option_code == v / 256,
        <DeviceIDResult as vstd::std_specs::convert::FromSpec<u16>>::from_spec(v).device_id == v % 256,
        <DeviceIDResult as vstd::std_specs::convert::FromSpec<u16>>::from_spec(v).option_code * 256
            + <DeviceIDResult as vstd::std_specs::convert::FromSpec<u16>>::from_spec(v).device_id == v,
{
    assert((v >> 8) == v / 256 && (v & 0xff) == v % 256) by (bit_vector);
}

/// The two threshold flags of the interrupt status register.
#[derive(Debug, Clone, Copy, PartialEq, Eq, Structural)]
pub struct IntStatus {
    pub int_th_low: bool,
    pub int_th_high: bool,
}

impl Default for IntStatus {
    /// No flag raised.
    fn default() -> (r: Self)
        ensures
            r == (IntStatus { int_th_low: false, int_th_high: false }),
    {
        IntStatus { int_th_low: false, int_th_high: false }
    }
}

impl From<u16> for IntStatus {
    fn from(val: u16) -> (r: Self) {
        let status = AlsIntStatus(val);
        IntStatus { int_th_low: status.int_th_low(), int_th_high: status.int_th_high() }
    }
}

impl vstd::std_specs::convert::FromSpecImpl<u16> for IntStatus {
    open spec fn obeys_from_spec() -> bool {
        true
    }

    open spec fn from_spec(v: u16) -> IntStatus {
        IntStatus {
            int_th_low: AlsIntStatus(v).spec_int_th_low(),
            int_th_high: AlsIntStatus(v).spec_int_th_high(),
        }
    }
}

/// The six integration time codes that stand for a setting of their own.
pub open spec fn valid_it_code(c: u16) -> bool {
    c == 0x00 || c == 0x01 || c == 0x02 || c == 0x03 || c == 0x08 || c == 0x0c
}

impl AlsConfig {
    /// A configuration as a builder holds it: shut down, reserved bits 15..13,
    /// 10 and 3..2 clear, and an integration time code of its own.
    pub open spec fn spec_builder_ok(self) -> bool {
        &&& self.0 & 1 == 1
        &&& self.0 & 0xE40C == 0
        &&& valid_it_code(field(self.0, 6, 15))
    }
}

impl PowerSaving {
    /// Only the mode and enable bits (2..0) are set.
    pub open spec fn spec_builder_ok(self) -> bool {
        self.0 & 0xFFF8 == 0
    }
}

/// Setting gain, integration time, persistence or the interrupt enable bit
/// keeps a configuration shut down, its reserved bits clear and its
/// integration time code valid; setting the power saving fields keeps the
/// power saving register within bits 2..0.
pub proof fn law_builder_ok_preserved(c: AlsConfig, p: PowerSaving, gain: ALSGain, it: ALSIt, pers: ALSPers, mode: PsmMode, v: u8)
    ensures
        c.spec_builder_ok() ==> c.spec_with_gain(gain).spec_builder_ok(),
        c.spec_builder_ok() ==> c.spec_with_it(it).spec_builder_ok(),
        c.spec_builder_ok() ==> c.spec_with_pers(pers).spec_builder_ok(),
        c.spec_builder_ok() ==> c.spec_with_int_en(v).spec_builder_ok(),
        p.spec_builder_ok() ==> p.spec_with_psm(mode).spec_builder_ok(),
        p.spec_builder_ok() ==> p.spec_with_psm_en(v).spec_builder_ok(),
        AlsConfig(1).spec_builder_ok(),
        PowerSaving(0).spec_builder_ok(),
{
    let w = c.0;
    let g = gain.spec_code() as u16;
    let t = it.spec_code() as u16;
    let q = pers.spec_code() as u16;
    let m = mode.spec_code() as u16;
    let b = v as u16;
    let pw = p.0;
    assert(g <= 3 && q <= 3 && m <= 3);
    assert(valid_it_code(t));
    assert(w & 1 == 1 && w & 0xE40C == 0 && g <= 3 ==> {
        let n = (w & !(3u16 << 11u16)) | ((g & 3) << 11u16);
        n & 1 == 1 && n & 0xE40C == 0 && (n >> 6u16) & 15 == (w >> 6u16) & 15
    }) by (bit_vector);
    assert(w & 1 == 1 && w & 0xE40C == 0 && q <= 3 ==> {
        let n = (w & !(3u16 << 4u16)) | ((q & 3) << 4u16);
        n & 1 == 1 && n & 0xE40C == 0 && (n >> 6u16) & 15 == (w >> 6u16) & 15
    }) by (bit_vector);
    assert(w & 1 == 1 && w & 0xE40C == 0 ==> {
        let n = (w & !(1u16 << 1u16)) | ((b & 1) << 1u16);
        n & 1 == 1 && n & 0xE40C == 0 && (n >> 6u16) & 15 == (w >> 6u16) & 15
    }) by (bit_vector);
    assert(w & 1 == 1 && w & 0xE40C == 0 && t <= 15 ==> {
        let n = (w & !(15u16 << 6u16)) | ((t & 15) << 6u16);
        n & 1 == 1 && n & 0xE40C == 0 && (n >> 6u16) & 15 == t
    }) by (bit_vector);
    assert(pw & 0xFFF8 == 0 && m <= 3 ==> ((pw & !(3u16 << 1u16)) | ((m & 3) << 1u16)) & 0xFFF8 == 0)
        by (bit_vector);
    assert(pw & 0xFFF8 == 0 ==> ((pw & !(1u16 << 0u16)) | ((b & 1) << 0u16)) & 0xFFF8 == 0)
        by (bit_vector);
    assert(1u16 & 1 == 1 && 1u16 & 0xE40C == 0 && (1u16 >> 6u16) & 15 == 0 && 0u16 & 0xFFF8 == 0)
        by (bit_vector);
}

/// The register map of the datasheet.
pub proof fn law_register_map()
    ensures
        REG_ALS_CONFIG == 0x00,
        REG_ALS_WINDOW_HIGHT == 0x01,
        REG_ALS_WINDOWS_LOW == 0x02,
        REG_POWER_SAVING == 0x03,
        REG_ALS == 0x04,
        REG_WHITE == 0x05,
        REG_ALS_INT == 0x06,
        REG_DEVICE_ID == 0x07,
{
}

/// Each setting lands in the configuration register as its datasheet code:
/// gain x1, x2, x1/8, x1/4 as 0, 1, 2, 3 in bits 12..11; integration times of
/// 25, 50, 100, 200, 400 and 800 ms as 0b1100, 0b1000, 0, 1, 2, 3 in bits 9..6;
/// persistence 1, 2, 4, 8 as 0, 1, 2, 3 in bits 5..4; and each code read
/// from the register stands for that setting again.
pub proof fn law_config_datasheet_codes(c: AlsConfig)
    ensures
        field(c.spec_with_gain(ALSGain::AlsX1).0, 11, 3) == 0,
        field(c.spec_with_gain(ALSGain::AlsX2).0, 11, 3) == 1,
        field(c.spec_with_gain(ALSGain::AlsDiv8).0, 11, 3) == 2,
        field(c.spec_with_gain(ALSGain::AlsDiv4).0, 11, 3) == 3,
        field(c.spec_with_it(ALSIt::It25ms).0, 6, 15) == 0x0c,
        field(c.spec_with_it(ALSIt::It50ms).0, 6, 15) == 0x08,
        field(c.spec_with_it(ALSIt::It100ms).0, 6, 15) == 0x00,
        field(c.spec_with_it(ALSIt::It200ms).0, 6, 15) == 0x01,
        field(c.spec_with_it(ALSIt::It400ms).0, 6, 15) == 0x02,
        field(c.spec_with_it(ALSIt::It800ms).0, 6, 15) == 0x03,
        field(c.spec_with_pers(ALSPers::Ap1).0, 4, 3) == 0,
        field(c.spec_with_pers(ALSPers::Ap2).0, 4, 3) == 1,
        field(c.spec_with_pers(ALSPers::Ap4).0, 4, 3) == 2,
        field(c.spec_with_pers(ALSPers::Ap8).0, 4, 3) == 3,
        field(c.0, 11, 3) == 0 ==> c.spec_als_gain() == ALSGain::AlsX1,
        field(c.0, 11, 3) == 1 ==> c.spec_als_gain() == ALSGain::AlsX2,
        field(c.0, 11, 3) == 2 ==> c.spec_als_gain() == ALSGain::AlsDiv8,
        field(c.0, 11, 3) == 3 ==> c.spec_als_gain() == ALSGain::AlsDiv4,
        field(c.0, 6, 15) == 0x0c ==> c.spec_als_it() == ALSIt::It25ms,
        field(c.0, 6, 15) == 0x08 ==> c.spec_als_it() == ALSIt::It50ms,
        field(c.0, 6, 15) == 0x00 ==> c.spec_als_it() == ALSIt::It100ms,
        field(c.0, 6, 15) == 0x01 ==> c.spec_als_it() == ALSIt::It200ms,
        field(c.0, 6, 15) == 0x02 ==> c.spec_als_it() == ALSIt::It400ms,
        field(c.0, 6, 15) == 0x03 ==> c.spec_als_it() == ALSIt::It800ms,
        field(c.0, 4, 3) == 0 ==> c.spec_als_pers() == ALSPers::Ap1,
        field(c.0, 4, 3) == 1 ==> c.spec_als_pers() == ALSPers::Ap2,
        field(c.0, 4, 3) == 2 ==> c.spec_als_pers() == ALSPers::Ap4,
        field(c.0, 4, 3) == 3 ==> c.spec_als_pers() == ALSPers::Ap8,
{
    lemma_register_layout();
    assert forall|k: u16| k <= 15 implies #[trigger] field(with_field(c.0, 6, 15, k), 6, 15) == k by {
        lemma_field_of_with_field(c.0, 6, 15, k);
        lemma_low_mask(k, 15);
    }
    assert forall|k: u16| k <= 3 implies #[trigger] field(with_field(c.0, 11, 3, k), 11, 3) == k by {
        lemma_field_of_with_field(c.0, 11, 3, k);
        lemma_low_mask(k, 3);
    }
    assert forall|k: u16| k <= 3 implies #[trigger] field(with_field(c.0, 4, 3, k), 4, 3) == k by {
        lemma_field_of_with_field(c.0, 4, 3, k);
        lemma_low_mask(k, 3);
    }
}

/// Each power saving mode n lands in bits 2..1 of the power saving register as
/// n - 1, and each code read from there stands for that mode again.
pub proof fn law_power_saving_datasheet_codes(p: PowerSaving)
    ensures
        field(p.spec_with_psm(PsmMode::PSMMode1).0, 1, 3) == 0,
        field(p.spec_with_psm(PsmMode::PSMMode2).0, 1, 3) == 1,
        field(p.spec_with_psm(PsmMode::PSMMode3).0, 1, 3) == 2,
        field(p.spec_with_psm(PsmMode::PSMMode4).0, 1, 3) == 3,
        field(p.0, 1, 3) == 0 ==> p.spec_psm() == PsmMode::PSMMode1,
        field(p.0, 1, 3) == 1 ==> p.spec_psm() == PsmMode::PSMMode2,
        field(p.0, 1, 3) == 2 ==> p.spec_psm() == PsmMode::PSMMode3,
        field(p.0, 1, 3) == 3 ==> p.spec_psm() == PsmMode::PSMMode4,
        field(p.spec_with_psm_en(1).0, 0, 1) == 1,
        field(p.spec_with_psm_en(0).0, 0, 1) == 0,
{
    lemma_register_layout();
    assert forall|k: u16| k <= 3 implies #[trigger] field(with_field(p.0, 1, 3, k), 1, 3) == k by {
        lemma_field_of_with_field(p.0, 1, 3, k);
        lemma_low_mask(k, 3);
    }
    lemma_field_of_with_field(p.0, 0, 1, 1);
    lemma_low_mask(1, 1);
    lemma_field_of_with_field(p.0, 0, 1, 0);
    lemma_low_mask(0, 1);
}

/// A configuration given a gain and then an integration time reads back both.
proof fn lemma_gain_and_time_read_back(c: AlsConfig, gain: ALSGain, it: ALSIt)
    ensures
        c.spec_with_gain(gain).spec_with_it(it).spec_als_gain() == gain,
        c.spec_with_gain(gain).spec_with_it(it).spec_als_it() == it,
{
    law_als_config_fields(c, gain, it, ALSPers::Ap1, 0);
    law_als_config_fields(c.spec_with_gain(gain), gain, it, ALSPers::Ap1, 0);
}

/// The resolution in lux per count for each gain at 100 ms and for each
/// integration time at gain x1, whatever else the configuration holds:
/// 0.0672 lux at gain x1 and 100 ms, halved with each doubling of gain or of
/// integration time (5376/80000 = 0.0672, 5376/160000 = 0.0336, ...).
#[verifier::spinoff_prover]
pub proof fn law_resolution_table(c: AlsConfig)
    ensures
        c.spec_with_gain(ALSGain::AlsX1).spec_with_it(ALSIt::It100ms).spec_resolution_fraction() == (5376u32, 80000u32),
        c.spec_with_gain(ALSGain::AlsX2).spec_with_it(ALSIt::It100ms).spec_resolution_fraction() == (5376u32, 160000u32),
        c.spec_with_gain(ALSGain::AlsDiv8).spec_with_it(ALSIt::It100ms).spec_resolution_fraction() == (5376u32, 10000u32),
        c.spec_with_gain(ALSGain::AlsDiv4).spec_with_it(ALSIt::It100ms).spec_resolution_fraction() == (5376u32, 20000u32),
        c.spec_with_gain(ALSGain::AlsX1).spec_with_it(ALSIt::It25ms).spec_resolution_fraction() == (5376u32, 20000u32),
        c.spec_with_gain(ALSGain::AlsX1).spec_with_it(ALSIt::It50ms).spec_resolution_fraction() == (5376u32, 40000u32),
        c.spec_with_gain(ALSGain::AlsX1).spec_with_it(ALSIt::It200ms).spec_resolution_fraction() == (5376u32, 160000u32),
        c.spec_with_gain(ALSGain::AlsX1).spec_with_it(ALSIt::It400ms).spec_resolution_fraction() == (5376u32, 320000u32),
        c.spec_with_gain(ALSGain::AlsX1).spec_with_it(ALSIt::It800ms).spec_resolution_fraction() == (5376u32, 640000u32),
{
    lemma_gain_and_time_read_back(c, ALSGain::AlsX1, ALSIt::It100ms);
    lemma_gain_and_time_read_back(c, ALSGain::AlsX2, ALSIt::It100ms);
    lemma_gain_and_time_read_back(c, ALSGain::AlsDiv8, ALSIt::It100ms);
    lemma_gain_and_time_read_back(c, ALSGain::AlsDiv4, ALSIt::It100ms);
    lemma_gain_and_time_read_back(c, ALSGain::AlsX1, ALSIt::It25ms);
    lemma_gain_and_time_read_back(c, ALSGain::AlsX1, ALSIt::It50ms);
    lemma_gain_and_time_read_back(c, ALSGain::AlsX1, ALSIt::It200ms);
    lemma_gain_and_time_read_back(c, ALSGain::AlsX1, ALSIt::It400ms);
    lemma_gain_and_time_read_back(c, ALSGain::AlsX1, ALSIt::It800ms);
    let base = c.spec_with_gain(ALSGain::AlsX1).spec_with_it(ALSIt::It100ms);
    assert(base.spec_als_gain().spec_eighths() == 8 && base.spec_als_it().spec_millis() == 100);
}

} // verus!
