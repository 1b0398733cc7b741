//! Register codec for the auxiliary charge-controller chip.
//!
//! The charger monitor shares only the bus with the protocol engine: each
//! tick it enables the analog-to-digital converter and reads the system- and
//! bus-voltage channels.  The codec side of that work lives here; the bus
//! transactions are the caller's.

use crate::bits::{b2i, lemma_field_split};
use vstd::prelude::*;

verus! {

/// Bus address of the charge-controller chip.
pub const BQ25620_ADDR: u8 = 0x6b;

/// Register address map of the charge-controller chip.
#[derive(Clone, Copy, Debug, PartialEq, Eq, Structural)]
pub enum Register {
    ChargeCurrentLimit,
    ChargeCurrentVoltageLimit,
    InputCurrentLimit,
    InputVoltageLimit,
    IotgRegulation,
    BotgRegulation,
    MinimalSystemVoltage,
    PreChargeCurrent,
    TerminationControl,
    ChargeControl0,
    ChargeTimerControl,
    ChargerControl1,
    ChargerControl2,
    ChargerControl3,
    ChargerControl4,
    NtcControl0,
    NtcControl1,
    NtcControl2,
    ChargerStatus0,
    ChargerStatus1,
    FaultStatus0,
    ChargerFlag0,
    ChargerFlag1,
    FaultFlag0,
    ChargerMask0,
    ChargerMask,
    FaultMask0,
    AdcControl,
    AdcFunctionDisable,
    IbusAdc,
    IbatAdc,
    VbusAdc,
    VpmidAdc,
    VbatAdc,
    VsysAdc,
    TsAdc,
    TdieAdc,
    PartInformation,
}

impl Register {
    /// Address byte written on the bus to select this register.
    pub open spec fn spec_addr(self) -> u8 {
        match self {
            Register::ChargeCurrentLimit => 0x02,
            Register::ChargeCurrentVoltageLimit => 0x04,
            Register::InputCurrentLimit => 0x06,
            Register::InputVoltageLimit => 0x08,
            Register::IotgRegulation => 0x0a,
            Register::BotgRegulation => 0x0c,
            Register::MinimalSystemVoltage => 0x0e,
            Register::PreChargeCurrent => 0x10,
            Register::TerminationControl => 0x12,
            Register::ChargeControl0 => 0x14,
            Register::ChargeTimerControl => 0x15,
            Register::ChargerControl1 => 0x16,
            Register::ChargerControl2 => 0x17,
            Register::ChargerControl3 => 0x18,
            Register::ChargerControl4 => 0x19,
            Register::NtcControl0 => 0x1a,
            Register::NtcControl1 => 0x1b,
            Register::NtcControl2 => 0x1c,
            Register::ChargerStatus0 => 0x1d,
            Register::ChargerStatus1 => 0x13,
            Register::FaultStatus0 => 0x1f,
            Register::ChargerFlag0 => 0x20,
            Register::ChargerFlag1 => 0x21,
            Register::FaultFlag0 => 0x22,
            Register::ChargerMask0 => 0x23,
            Register::ChargerMask => 0x24,
            Register::FaultMask0 => 0x25,
            Register::AdcControl => 0x26,
            Register::AdcFunctionDisable => 0x27,
            Register::IbusAdc => 0x28,
            Register::IbatAdc => 0x2a,
            Register::VbusAdc => 0x2c,
            Register::VpmidAdc => 0x2e,
            Register::VbatAdc => 0x30,
            Register::VsysAdc => 0x32,
            Register::TsAdc => 0x34,
            Register::TdieAdc => 0x36,
            Register::PartInformation => 0x38,
        }
    }

    pub fn addr(self) -> (r: u8)
        ensures
            r == self.spec_addr(),
    {
        match self {
            Register::ChargeCurrentLimit => 0x02,
            Register::ChargeCurrentVoltageLimit => 0x04,
            Register::InputCurrentLimit => 0x06,
            Register::InputVoltageLimit => 0x08,
            Register::IotgRegulation => 0x0a,
            Register::BotgRegulation => 0x0c,
            Register::MinimalSystemVoltage => 0x0e,
            Register::PreChargeCurrent => 0x10,
            Register::TerminationControl => 0x12,
            Register::ChargeControl0 => 0x14,
            Register::ChargeTimerControl => 0x15,
            Register::ChargerControl1 => 0x16,
            Register::ChargerControl2 => 0x17,
            Register::ChargerControl3 => 0x18,
            Register::ChargerControl4 => 0x19,
            Register::NtcControl0 => 0x1a,
            Register::NtcControl1 => 0x1b,
            Register::NtcControl2 => 0x1c,
            Register::ChargerStatus0 => 0x1d,
            Register::ChargerStatus1 => 0x13,
            Register::FaultStatus0 => 0x1f,
            Register::ChargerFlag0 => 0x20,
            Register::ChargerFlag1 => 0x21,
            Register::FaultFlag0 => 0x22,
            Register::ChargerMask0 => 0x23,
            Register::ChargerMask => 0x24,
            Register::FaultMask0 => 0x25,
            Register::AdcControl => 0x26,
            Register::AdcFunctionDisable => 0x27,
            Register::IbusAdc => 0x28,
            Register::IbatAdc => 0x2a,
            Register::VbusAdc => 0x2c,
            Register::VpmidAdc => 0x2e,
            Register::VbatAdc => 0x30,
            Register::VsysAdc => 0x32,
            Register::TsAdc => 0x34,
            Register::TdieAdc => 0x36,
            Register::PartInformation => 0x38,
        }
    }
}

/// ADC CONTROL register: sampling configuration and converter enable.
#[derive(Clone, Copy, Debug, PartialEq, Eq, Structural)]
pub struct AdcControl {
    /// Bit 2.
    pub adc_avg_int: bool,
    /// Bit 3.
    pub adc_avg: bool,
    /// Bits 4..6.
    pub adc_sample: u8,
    /// Bit 6.
    pub adc_rate: bool,
    /// Bit 7.
    pub adc_en: bool,
}

impl AdcControl {
    pub open spec fn wf(self) -> bool {
        self.adc_sample < 4
    }

    pub open spec fn spec_encode(self) -> u8
        recommends
            self.wf(),
    {
        (4 * b2i(self.adc_avg_int) + 8 * b2i(self.adc_avg) + 16 * self.adc_sample as int + 64 * b2i(
            self.adc_rate,
        ) + 128 * b2i(self.adc_en)) as u8
    }

    pub open spec fn spec_decode(b: u8) -> AdcControl {
        AdcControl {
            adc_avg_int: (b / 4) % 2 == 1,
            adc_avg: (b / 8) % 2 == 1,
            adc_sample: ((b / 16) % 4) as u8,
            adc_rate: (b / 64) % 2 == 1,
            adc_en: b / 128 == 1,
        }
    }

    pub fn new() -> (r: AdcControl)
        ensures
            r == Self::spec_decode(0),
            r.wf(),
    {
        AdcControl {
            adc_avg_int: false,
            adc_avg: false,
            adc_sample: 0,
            adc_rate: false,
            adc_en: false,
        }
    }

    pub fn with_adc_en(self, v: bool) -> (r: AdcControl)
        ensures
            r == (AdcControl { adc_en: v, ..self }),
    {
        AdcControl { adc_en: v, ..self }
    }

    pub fn encode(&self) -> (r: u8)
        requires
            self.wf(),
        ensures
            r == self.spec_encode(),
            Self::spec_decode(r) == *self,
    {
        proof {
            self.lemma_encode_decode();
        }
        (if self.adc_avg_int {
            4
        } else {
            0
        }) + (if self.adc_avg {
            8
        } else {
            0
        }) + 16 * self.adc_sample + (if self.adc_rate {
            64
        } else {
            0
        }) + (if self.adc_en {
            128
        } else {
            0
        })
    }

    pub fn decode(b: u8) -> (r: AdcControl)
        ensures
            r == Self::spec_decode(b),
            r.wf(),
    {
        AdcControl {
            adc_avg_int: (b / 4) % 2 == 1,
            adc_avg: (b / 8) % 2 == 1,
            adc_sample: ((b / 16) % 4) as u8,
            adc_rate: (b / 64) % 2 == 1,
            adc_en: b / 128 == 1,
        }
    }

    /// Round-trip law for this register.
    pub proof fn lemma_encode_decode(self)
        requires
            self.wf(),
        ensures
            Self::spec_decode(self.spec_encode()) == self,
    {
        let ai = b2i(self.adc_avg_int);
        let av = b2i(self.adc_avg);
        let sm = self.adc_sample as int;
        let rt = b2i(self.adc_rate);
        let en = b2i(self.adc_en);
        lemma_field_split(0, ai + 2 * av + 4 * sm + 16 * rt + 32 * en, 4);
        lemma_field_split(ai, av + 2 * sm + 8 * rt + 16 * en, 2);
        lemma_field_split(4 * ai, av + 2 * sm + 8 * rt + 16 * en, 8);
        lemma_field_split(av, sm + 4 * rt + 8 * en, 2);
        lemma_field_split(4 * ai + 8 * av, sm + 4 * rt + 8 * en, 16);
        lemma_field_split(sm, rt + 2 * en, 4);
        lemma_field_split(4 * ai + 8 * av + 16 * sm, rt + 2 * en, 64);
        lemma_field_split(rt, en, 2);
        lemma_field_split(4 * ai + 8 * av + 16 * sm + 64 * rt, en, 128);
    }
}

/// A 16-bit ADC voltage reading: a 13-bit raw count at 3970 microvolts per
/// step.  The VBUS and VSYS channels share this layout.
#[derive(Clone, Copy, Debug, PartialEq, Eq, Structural)]
pub struct AdcVoltage {
    /// Bits 2..15.
    pub raw_voltage: u16,
}

impl AdcVoltage {
    pub open spec fn wf(self) -> bool {
        self.raw_voltage < 8192
    }

    pub open spec fn spec_encode(self) -> u16
        recommends
            self.wf(),
    {
        (4 * self.raw_voltage as int) as u16
    }

    pub open spec fn spec_decode(b: u16) -> AdcVoltage {
        AdcVoltage { raw_voltage: ((b / 4) % 8192) as u16 }
    }

    pub fn encode(&self) -> (r: u16)
        requires
            self.wf(),
        ensures
            r == self.spec_encode(),
            Self::spec_decode(r) == *self,
    {
        proof {
            self.lemma_encode_decode();
        }
        4 * self.raw_voltage
    }

    pub fn decode(b: u16) -> (r: AdcVoltage)
        ensures
            r == Self::spec_decode(b),
            r.wf(),
    {
        AdcVoltage { raw_voltage: (b / 4) % 8192 }
    }

    /// Round-trip law for this register.
    pub proof fn lemma_encode_decode(self)
        requires
            self.wf(),
        ensures
            Self::spec_decode(self.spec_encode()) == self,
    {
        let rv = self.raw_voltage as int;
        lemma_field_split(0, rv, 4);
        lemma_field_split(rv, 0, 8192);
    }

    /// The reading in microvolts: 3970 microvolts per raw step.
    pub open spec fn spec_microvolts(self) -> u32 {
        (self.raw_voltage * 3970) as u32
    }

    pub fn microvolts(&self) -> (r: u32)
        ensures
            r == self.spec_microvolts(),
    {
        self.raw_voltage as u32 * 3970
    }
}

/// PART INFORMATION register: silicon revision and part number.
#[derive(Clone, Copy, Debug, PartialEq, Eq, Structural)]
pub struct PartInformation {
    /// Bits 0..3.
    pub dev_rev: u8,
    /// Bits 3..6.
    pub pn: u8,
}

impl PartInformation {
    pub open spec fn wf(self) -> bool {
        &&& self.dev_rev < 8
        &&& self.pn < 8
    }

    pub open spec fn spec_encode(self) -> u8
        recommends
            self.wf(),
    {
        (self.dev_rev as int + 8 * self.pn as int) as u8
    }

    pub open spec fn spec_decode(b: u8) -> PartInformation {
        PartInformation { dev_rev: (b % 8) as u8, pn: ((b / 8) % 8) as u8 }
    }

    pub fn encode(&self) -> (r: u8)
        requires
            self.wf(),
        ensures
            r == self.spec_encode(),
            Self::spec_decode(r) == *self,
    {
        proof {
            self.lemma_encode_decode();
        }
        self.dev_rev + 8 * self.pn
    }

    pub fn decode(b: u8) -> (r: PartInformation)
        ensures
            r == Self::spec_decode(b),
            r.wf(),
    {
        PartInformation { dev_rev: b % 8, pn: (b / 8) % 8 }
    }

    /// Round-trip law for this register.
    pub proof fn lemma_encode_decode(self)
        requires
            self.wf(),
        ensures
            Self::spec_decode(self.spec_encode()) == self,
    {
        lemma_field_split(self.dev_rev as int, self.pn as int, 8);
        lemma_field_split(self.pn as int, 0, 8);
    }
}

} // verus!
