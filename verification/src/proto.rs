//! Wire-message codec: the 16-bit message header and the 32-bit power data
//! objects exchanged during capability negotiation.
//!
//! Every type is a fixed-width packed integer with named bit-range fields,
//! laid out least-significant field first.  Encoding a well-formed value and
//! decoding the result is the identity; reserved bits are written as zero and
//! ignored on decode, which is the only intentional identity loss.

use crate::bits::{b2i, lemma_field_split};
use vstd::prelude::*;

verus! {

/// Message header (16 bits): type, roles, revision, session message ID and
/// the count of 4-byte data objects that follow.
#[derive(Clone, Copy, Debug, PartialEq, Eq, Structural)]
pub struct Header {
    /// Bits 0..5.
    pub message_type: u8,
    /// Bit 5.
    pub data_rate: bool,
    /// Bits 6..8.
    pub spec_revision: u8,
    /// Bit 8.
    pub port_power_role: bool,
    /// Bits 9..12.
    pub message_id: u8,
    /// Bits 12..15.
    pub num_data_objects: u8,
    /// Bit 15.
    pub extended: bool,
}

impl Header {
    /// Every field fits its declared bit width.
    pub open spec fn wf(self) -> bool {
        &&& self.message_type < 32
        &&& self.spec_revision < 4
        &&& self.message_id < 8
        &&& self.num_data_objects < 8
    }

    pub open spec fn spec_encode(self) -> u16
        recommends
            self.wf(),
    {
        (self.message_type as int + 32 * (if self.data_rate {
            1int
        } else {
            0
        }) + 64 * self.spec_revision as int + 256 * (if self.port_power_role {
            1int
        } else {
            0
        }) + 512 * self.message_id as int + 4096 * self.num_data_objects as int + 32768 * (
        if self.extended {
            1int
        } else {
            0
        })) as u16
    }

    pub open spec fn spec_decode(b: u16) -> Header {
        Header {
            message_type: (b % 32) as u8,
            data_rate: (b / 32) % 2 == 1,
            spec_revision: ((b / 64) % 4) as u8,
            port_power_role: (b / 256) % 2 == 1,
            message_id: ((b / 512) % 8) as u8,
            num_data_objects: ((b / 4096) % 8) as u8,
            extended: b / 32768 == 1,
        }
    }

    pub fn new() -> (r: Header)
        ensures
            r == Self::spec_decode(0),
            r.wf(),
    {
        Header {
            message_type: 0,
            data_rate: false,
            spec_revision: 0,
            port_power_role: false,
            message_id: 0,
            num_data_objects: 0,
            extended: false,
        }
    }

    pub fn with_message_type(self, v: u8) -> (r: Header)
        ensures
            r == (Header { message_type: (v % 32) as u8, ..self }),
    {
        Header { message_type: v % 32, ..self }
    }

    pub fn with_data_rate(self, v: bool) -> (r: Header)
        ensures
            r == (Header { data_rate: v, ..self }),
    {
        Header { data_rate: v, ..self }
    }

    pub fn with_spec_revision(self, v: u8) -> (r: Header)
        ensures
            r == (Header { spec_revision: (v % 4) as u8, ..self }),
    {
        Header { spec_revision: v % 4, ..self }
    }

    pub fn with_port_power_role(self, v: bool) -> (r: Header)
        ensures
            r == (Header { port_power_role: v, ..self }),
    {
        Header { port_power_role: v, ..self }
    }

    pub fn with_message_id(self, v: u8) -> (r: Header)
        ensures
            r == (Header { message_id: (v % 8) as u8, ..self }),
    {
        Header { message_id: v % 8, ..self }
    }

    pub fn with_num_data_objects(self, v: u8) -> (r: Header)
        ensures
            r == (Header { num_data_objects: (v % 8) as u8, ..self }),
    {
        Header { num_data_objects: v % 8, ..self }
    }

    pub fn with_extended(self, v: bool) -> (r: Header)
        ensures
            r == (Header { extended: v, ..self }),
    {
        Header { extended: v, ..self }
    }

    /// Packs the fields into the raw 16-bit representation.  Decoding the
    /// result recovers the value: the round-trip law for this type.
    pub fn encode(&self) -> (r: u16)
        requires
            self.wf(),
        ensures
            r == self.spec_encode(),
            Self::spec_decode(r) == *self,
    {
        proof {
            self.lemma_encode_decode();
        }
        self.message_type as u16 + (if self.data_rate {
            32
        } else {
            0
        }) + 64 * self.spec_revision as u16 + (if self.port_power_role {
            256
        } else {
            0
        }) + 512 * self.message_id as u16 + 4096 * self.num_data_objects as u16 + (
        if self.extended {
            32768
        } else {
            0
        })
    }

    /// Unpacks a raw 16-bit header.  Total: every raw value decodes to a
    /// well-formed header.
    pub fn decode(b: u16) -> (r: Header)
        ensures
            r == Self::spec_decode(b),
            r.wf(),
    {
        Header {
            message_type: (b % 32) as u8,
            data_rate: (b / 32) % 2 == 1,
            spec_revision: ((b / 64) % 4) as u8,
            port_power_role: (b / 256) % 2 == 1,
            message_id: ((b / 512) % 8) as u8,
            num_data_objects: ((b / 4096) % 8) as u8,
            extended: b / 32768 == 1,
        }
    }

    /// Round-trip law: encoding a well-formed header and decoding the result
    /// yields the original value.
    pub proof fn lemma_encode_decode(self)
        requires
            self.wf(),
        ensures
            Self::spec_decode(self.spec_encode()) == self,
    {
        let mt = self.message_type as int;
        let dr: int = if self.data_rate {
            1
        } else {
            0
        };
        let rev = self.spec_revision as int;
        let pr: int = if self.port_power_role {
            1
        } else {
            0
        };
        let id = self.message_id as int;
        let ndo = self.num_data_objects as int;
        let ext: int = if self.extended {
            1
        } else {
            0
        };
        let raw = mt + 32 * dr + 64 * rev + 256 * pr + 512 * id + 4096 * ndo + 32768 * ext;
        assert(raw < 65536);
        lemma_field_split(mt, dr + 2 * rev + 8 * pr + 16 * id + 128 * ndo + 1024 * ext, 32);
        lemma_field_split(mt + 32 * dr, rev + 4 * pr + 8 * id + 64 * ndo + 512 * ext, 64);
        lemma_field_split(mt + 32 * dr + 64 * rev, pr + 2 * id + 16 * ndo + 128 * ext, 256);
        lemma_field_split(mt + 32 * dr + 64 * rev + 256 * pr, id + 8 * ndo + 64 * ext, 512);
        lemma_field_split(mt + 32 * dr + 64 * rev + 256 * pr + 512 * id, ndo + 8 * ext, 4096);
        lemma_field_split(mt + 32 * dr + 64 * rev + 256 * pr + 512 * id + 4096 * ndo, ext, 32768);
        lemma_field_split(dr, rev + 4 * pr + 8 * id + 64 * ndo + 512 * ext, 2);
        lemma_field_split(rev, pr + 2 * id + 16 * ndo + 128 * ext, 4);
        lemma_field_split(pr, id + 8 * ndo + 64 * ext, 2);
        lemma_field_split(id, ndo + 8 * ext, 8);
        lemma_field_split(ndo, ext, 8);
    }

    /// Object count determines payload length: `4 * num_data_objects` bytes,
    /// at most 28 for a well-formed header.
    pub fn payload_len(&self) -> (r: usize)
        ensures
            r == 4 * self.num_data_objects,
            self.wf() ==> r <= 28,
    {
        4 * self.num_data_objects as usize
    }
}

/// Message types carried by headers with no data objects.
#[derive(Clone, Copy, Debug, PartialEq, Eq, Structural)]
pub enum ControlMessageType {
    GoodCrc,
    GotoMin,
    Accept,
    Reject,
    Ping,
    PsRdy,
    GetSourceCap,
    GetSinkCap,
    DrSwap,
    PrSwap,
    VconnSwap,
    Wait,
    DataReset,
    DataResetComplete,
    NotSupported,
    GetSourceCapExtended,
    GetStatus,
    FrSwap,
    GetPpsStatus,
    GetCountryCodes,
    GetSinkCapExtended,
    GetSourceInfo,
    GetRevision,
}

impl ControlMessageType {
    /// The 5-bit message-type code.
    pub open spec fn spec_value(self) -> u8 {
        match self {
            ControlMessageType::GoodCrc => 0x01,
            ControlMessageType::GotoMin => 0x02,
            ControlMessageType::Accept => 0x03,
            ControlMessageType::Reject => 0x04,
            ControlMessageType::Ping => 0x05,
            ControlMessageType::PsRdy => 0x06,
            ControlMessageType::GetSourceCap => 0x07,
            ControlMessageType::GetSinkCap => 0x08,
            ControlMessageType::DrSwap => 0x09,
            ControlMessageType::PrSwap => 0x0a,
            ControlMessageType::VconnSwap => 0x0b,
            ControlMessageType::Wait => 0x0c,
            ControlMessageType::DataReset => 0x0e,
            ControlMessageType::DataResetComplete => 0x0f,
            ControlMessageType::NotSupported => 0x10,
            ControlMessageType::GetSourceCapExtended => 0x11,
            ControlMessageType::GetStatus => 0x12,
            ControlMessageType::FrSwap => 0x13,
            ControlMessageType::GetPpsStatus => 0x14,
            ControlMessageType::GetCountryCodes => 0x15,
            ControlMessageType::GetSinkCapExtended => 0x16,
            ControlMessageType::GetSourceInfo => 0x17,
            ControlMessageType::GetRevision => 0x18,
        }
    }

    pub fn value(self) -> (r: u8)
        ensures
            r == self.spec_value(),
    {
        match self {
            ControlMessageType::GoodCrc => 0x01,
            ControlMessageType::GotoMin => 0x02,
            ControlMessageType::Accept => 0x03,
            ControlMessageType::Reject => 0x04,
            ControlMessageType::Ping => 0x05,
            ControlMessageType::PsRdy => 0x06,
            ControlMessageType::GetSourceCap => 0x07,
            ControlMessageType::GetSinkCap => 0x08,
            ControlMessageType::DrSwap => 0x09,
            ControlMessageType::PrSwap => 0x0a,
            ControlMessageType::VconnSwap => 0x0b,
            ControlMessageType::Wait => 0x0c,
            ControlMessageType::DataReset => 0x0e,
            ControlMessageType::DataResetComplete => 0x0f,
            ControlMessageType::NotSupported => 0x10,
            ControlMessageType::GetSourceCapExtended => 0x11,
            ControlMessageType::GetStatus => 0x12,
            ControlMessageType::FrSwap => 0x13,
            ControlMessageType::GetPpsStatus => 0x14,
            ControlMessageType::GetCountryCodes => 0x15,
            ControlMessageType::GetSinkCapExtended => 0x16,
            ControlMessageType::GetSourceInfo => 0x17,
            ControlMessageType::GetRevision => 0x18,
        }
    }

    /// The message type encoded by a 5-bit code, if any.
    pub open spec fn spec_from_u8(v: u8) -> Option<ControlMessageType> {
        if v == 0x01 {
            Some(ControlMessageType::GoodCrc)
        } else if v == 0x02 {
            Some(ControlMessageType::GotoMin)
        } else if v == 0x03 {
            Some(ControlMessageType::Accept)
        } else if v == 0x04 {
            Some(ControlMessageType::Reject)
        } else if v == 0x05 {
            Some(ControlMessageType::Ping)
        } else if v == 0x06 {
            Some(ControlMessageType::PsRdy)
        } else if v == 0x07 {
            Some(ControlMessageType::GetSourceCap)
        } else if v == 0x08 {
            Some(ControlMessageType::GetSinkCap)
        } else if v == 0x09 {
            Some(ControlMessageType::DrSwap)
        } else if v == 0x0a {
            Some(ControlMessageType::PrSwap)
        } else if v == 0x0b {
            Some(ControlMessageType::VconnSwap)
        } else if v == 0x0c {
            Some(ControlMessageType::Wait)
        } else if v == 0x0e {
            Some(ControlMessageType::DataReset)
        } else if v == 0x0f {
            Some(ControlMessageType::DataResetComplete)
        } else if v == 0x10 {
            Some(ControlMessageType::NotSupported)
        } else if v == 0x11 {
            Some(ControlMessageType::GetSourceCapExtended)
        } else if v == 0x12 {
            Some(ControlMessageType::GetStatus)
        } else if v == 0x13 {
            Some(ControlMessageType::FrSwap)
        } else if v == 0x14 {
            Some(ControlMessageType::GetPpsStatus)
        } else if v == 0x15 {
            Some(ControlMessageType::GetCountryCodes)
        } else if v == 0x16 {
            Some(ControlMessageType::GetSinkCapExtended)
        } else if v == 0x17 {
            Some(ControlMessageType::GetSourceInfo)
        } else if v == 0x18 {
            Some(ControlMessageType::GetRevision)
        } else {
            None
        }
    }

    pub fn from_u8(v: u8) -> (r: Option<ControlMessageType>)
        ensures
            r == Self::spec_from_u8(v),
    {
        match v {
            0x01 => Some(ControlMessageType::GoodCrc),
            0x02 => Some(ControlMessageType::GotoMin),
            0x03 => Some(ControlMessageType::Accept),
            0x04 => Some(ControlMessageType::Reject),
            0x05 => Some(ControlMessageType::Ping),
            0x06 => Some(ControlMessageType::PsRdy),
            0x07 => Some(ControlMessageType::GetSourceCap),
            0x08 => Some(ControlMessageType::GetSinkCap),
            0x09 => Some(ControlMessageType::DrSwap),
            0x0a => Some(ControlMessageType::PrSwap),
            0x0b => Some(ControlMessageType::VconnSwap),
            0x0c => Some(ControlMessageType::Wait),
            0x0e => Some(ControlMessageType::DataReset),
            0x0f => Some(ControlMessageType::DataResetComplete),
            0x10 => Some(ControlMessageType::NotSupported),
            0x11 => Some(ControlMessageType::GetSourceCapExtended),
            0x12 => Some(ControlMessageType::GetStatus),
            0x13 => Some(ControlMessageType::FrSwap),
            0x14 => Some(ControlMessageType::GetPpsStatus),
            0x15 => Some(ControlMessageType::GetCountryCodes),
            0x16 => Some(ControlMessageType::GetSinkCapExtended),
            0x17 => Some(ControlMessageType::GetSourceInfo),
            0x18 => Some(ControlMessageType::GetRevision),
            _ => None,
        }
    }
}

/// Message types carried by headers with at least one data object.
#[derive(Clone, Copy, Debug, PartialEq, Eq, Structural)]
pub enum DataMessageType {
    SourceCapabilities,
    Request,
    Bist,
    SinkCapabilities,
    BatteryStatus,
    Alert,
    GetCountryInfo,
    EnterUsb,
    EprRequest,
    EprMode,
    SourceInfo,
    Revision,
    VendorDefined,
}

impl DataMessageType {
    /// The 5-bit message-type code.
    pub open spec fn spec_value(self) -> u8 {
        match self {
            DataMessageType::SourceCapabilities => 0x01,
            DataMessageType::Request => 0x02,
            DataMessageType::Bist => 0x03,
            DataMessageType::SinkCapabilities => 0x04,
            DataMessageType::BatteryStatus => 0x05,
            DataMessageType::Alert => 0x06,
            DataMessageType::GetCountryInfo => 0x07,
            DataMessageType::EnterUsb => 0x08,
            DataMessageType::EprRequest => 0x09,
            DataMessageType::EprMode => 0x12,
            DataMessageType::SourceInfo => 0x0b,
            DataMessageType::Revision => 0x0c,
            DataMessageType::VendorDefined => 0x0f,
        }
    }

    pub fn value(self) -> (r: u8)
        ensures
            r == self.spec_value(),
    {
        match self {
            DataMessageType::SourceCapabilities => 0x01,
            DataMessageType::Request => 0x02,
            DataMessageType::Bist => 0x03,
            DataMessageType::SinkCapabilities => 0x04,
            DataMessageType::BatteryStatus => 0x05,
            DataMessageType::Alert => 0x06,
            DataMessageType::GetCountryInfo => 0x07,
            DataMessageType::EnterUsb => 0x08,
            DataMessageType::EprRequest => 0x09,
            DataMessageType::EprMode => 0x12,
            DataMessageType::SourceInfo => 0x0b,
            DataMessageType::Revision => 0x0c,
            DataMessageType::VendorDefined => 0x0f,
        }
    }

    /// The message type encoded by a 5-bit code, if any.
    pub open spec fn spec_from_u8(v: u8) -> Option<DataMessageType> {
        if v == 0x01 {
            Some(DataMessageType::SourceCapabilities)
        } else if v == 0x02 {
            Some(DataMessageType::Request)
        } else if v == 0x03 {
            Some(DataMessageType::Bist)
        } else if v == 0x04 {
            Some(DataMessageType::SinkCapabilities)
        } else if v == 0x05 {
            Some(DataMessageType::BatteryStatus)
        } else if v == 0x06 {
            Some(DataMessageType::Alert)
        } else if v == 0x07 {
            Some(DataMessageType::GetCountryInfo)
        } else if v == 0x08 {
            Some(DataMessageType::EnterUsb)
        } else if v == 0x09 {
            Some(DataMessageType::EprRequest)
        } else if v == 0x12 {
            Some(DataMessageType::EprMode)
        } else if v == 0x0b {
            Some(DataMessageType::SourceInfo)
        } else if v == 0x0c {
            Some(DataMessageType::Revision)
        } else if v == 0x0f {
            Some(DataMessageType::VendorDefined)
        } else {
            None
        }
    }

    pub fn from_u8(v: u8) -> (r: Option<DataMessageType>)
        ensures
            r == Self::spec_from_u8(v),
    {
        match v {
            0x01 => Some(DataMessageType::SourceCapabilities),
            0x02 => Some(DataMessageType::Request),
            0x03 => Some(DataMessageType::Bist),
            0x04 => Some(DataMessageType::SinkCapabilities),
            0x05 => Some(DataMessageType::BatteryStatus),
            0x06 => Some(DataMessageType::Alert),
            0x07 => Some(DataMessageType::GetCountryInfo),
            0x08 => Some(DataMessageType::EnterUsb),
            0x09 => Some(DataMessageType::EprRequest),
            0x12 => Some(DataMessageType::EprMode),
            0x0b => Some(DataMessageType::SourceInfo),
            0x0c => Some(DataMessageType::Revision),
            0x0f => Some(DataMessageType::VendorDefined),
            _ => None,
        }
    }
}

/// Fixed-supply power offer (32 bits): raw current in 10 mA units, raw
/// voltage in 50 mV units, and capability flags.
#[derive(Clone, Copy, Debug, PartialEq, Eq, Structural)]
pub struct FixedSupplyPdo {
    /// Bits 0..10, unit 10 mA.
    pub raw_max_current: u16,
    /// Bits 10..20, unit 50 mV.
    pub raw_voltage: u16,
    /// Bits 20..22.
    pub peak_current: u8,
    /// Bit 23.
    pub epr_mode_capable: bool,
    /// Bit 24.
    pub unchunked_extended_messages_supported: bool,
    /// Bit 25.
    pub dual_role_data: bool,
    /// Bit 26.
    pub usb_communications_capable: bool,
    /// Bit 27.
    pub unconstrained_power: bool,
    /// Bit 28.
    pub usb_suspend_supported: bool,
    /// Bit 29.
    pub dual_role_power: bool,
    /// Bits 30..32.
    pub pdo_type: u8,
}

impl FixedSupplyPdo {
    pub open spec fn wf(self) -> bool {
        &&& self.raw_max_current < 1024
        &&& self.raw_voltage < 1024
        &&& self.peak_current < 4
        &&& self.pdo_type < 4
    }

    pub open spec fn spec_encode(self) -> u32
        recommends
            self.wf(),
    {
        (self.raw_max_current as int + 1024 * self.raw_voltage as int + 1048576
            * self.peak_current as int + 8388608 * b2i(self.epr_mode_capable) + 16777216 * b2i(
            self.unchunked_extended_messages_supported,
        ) + 33554432 * b2i(self.dual_role_data) + 67108864 * b2i(self.usb_communications_capable)
            + 134217728 * b2i(self.unconstrained_power) + 268435456 * b2i(
            self.usb_suspend_supported,
        ) + 536870912 * b2i(self.dual_role_power) + 1073741824 * self.pdo_type as int) as u32
    }

    pub open spec fn spec_decode(b: u32) -> FixedSupplyPdo {
        FixedSupplyPdo {
            raw_max_current: (b % 1024) as u16,
            raw_voltage: ((b / 1024) % 1024) as u16,
            peak_current: ((b / 1048576) % 4) as u8,
            epr_mode_capable: (b / 8388608) % 2 == 1,
            unchunked_extended_messages_supported: (b / 16777216) % 2 == 1,
            dual_role_data: (b / 33554432) % 2 == 1,
            usb_communications_capable: (b / 67108864) % 2 == 1,
            unconstrained_power: (b / 134217728) % 2 == 1,
            usb_suspend_supported: (b / 268435456) % 2 == 1,
            dual_role_power: (b / 536870912) % 2 == 1,
            pdo_type: (b / 1073741824) as u8,
        }
    }

    pub fn encode(&self) -> (r: u32)
        requires
            self.wf(),
        ensures
            r == self.spec_encode(),
            Self::spec_decode(r) == *self,
    {
        proof {
            self.lemma_encode_decode();
        }
        self.raw_max_current as u32 + 1024 * self.raw_voltage as u32 + 1048576
            * self.peak_current as u32 + (if self.epr_mode_capable {
            8388608
        } else {
            0
        }) + (if self.unchunked_extended_messages_supported {
            16777216
        } else {
            0
        }) + (if self.dual_role_data {
            33554432
        } else {
            0
        }) + (if self.usb_communications_capable {
            67108864
        } else {
            0
        }) + (if self.unconstrained_power {
            134217728
        } else {
            0
        }) + (if self.usb_suspend_supported {
            268435456
        } else {
            0
        }) + (if self.dual_role_power {
            536870912
        } else {
            0
        }) + 1073741824 * self.pdo_type as u32
    }

    pub fn decode(b: u32) -> (r: FixedSupplyPdo)
        ensures
            r == Self::spec_decode(b),
            r.wf(),
    {
        FixedSupplyPdo {
            raw_max_current: (b % 1024) as u16,
            raw_voltage: ((b / 1024) % 1024) as u16,
            peak_current: ((b / 1048576) % 4) as u8,
            epr_mode_capable: (b / 8388608) % 2 == 1,
            unchunked_extended_messages_supported: (b / 16777216) % 2 == 1,
            dual_role_data: (b / 33554432) % 2 == 1,
            usb_communications_capable: (b / 67108864) % 2 == 1,
            unconstrained_power: (b / 134217728) % 2 == 1,
            usb_suspend_supported: (b / 268435456) % 2 == 1,
            dual_role_power: (b / 536870912) % 2 == 1,
            pdo_type: (b / 1073741824) as u8,
        }
    }

    /// Round-trip law for this data object.
    #[verifier::rlimit(50)]
    pub proof fn lemma_encode_decode(self)
        requires
            self.wf(),
        ensures
            Self::spec_decode(self.spec_encode()) == self,
    {
        let mc = self.raw_max_current as int;
        let rv = self.raw_voltage as int;
        let pc = self.peak_current as int;
        let ep = b2i(self.epr_mode_capable);
        let ux = b2i(self.unchunked_extended_messages_supported);
        let dd = b2i(self.dual_role_data);
        let uc = b2i(self.usb_communications_capable);
        let up = b2i(self.unconstrained_power);
        let us = b2i(self.usb_suspend_supported);
        let dp = b2i(self.dual_role_power);
        let pt = self.pdo_type as int;
        let t23 = ep + 2 * ux + 4 * dd + 8 * uc + 16 * up + 32 * us + 64 * dp + 128 * pt;
        let raw = mc + 1024 * rv + 1048576 * pc + 8388608 * t23;
        assert(0 <= raw < 4294967296);
        assert(self.spec_encode() == raw);
        assert(raw % 1024 == mc) by {
            lemma_field_split(mc, rv + 1024 * (pc + 8 * t23), 1024);
        }
        assert((raw / 1024) % 1024 == rv) by {
            lemma_field_split(mc, rv + 1024 * (pc + 8 * t23), 1024);
            lemma_field_split(rv, pc + 8 * t23, 1024);
        }
        assert((raw / 1048576) % 4 == pc) by {
            lemma_field_split(mc + 1024 * rv, pc + 8 * t23, 1048576);
            lemma_field_split(pc, 2 * t23, 4);
        }
        assert((raw / 8388608) % 2 == ep) by {
            lemma_field_split(
                mc + 1024 * rv + 1048576 * pc,
                ep + 2 * (ux + 2 * dd + 4 * uc + 8 * up + 16 * us + 32 * dp + 64 * pt),
                8388608,
            );
            lemma_field_split(ep, ux + 2 * dd + 4 * uc + 8 * up + 16 * us + 32 * dp + 64 * pt, 2);
        }
        assert((raw / 16777216) % 2 == ux) by {
            lemma_field_split(
                mc + 1024 * rv + 1048576 * pc + 8388608 * ep,
                ux + 2 * (dd + 2 * uc + 4 * up + 8 * us + 16 * dp + 32 * pt),
                16777216,
            );
            lemma_field_split(ux, dd + 2 * uc + 4 * up + 8 * us + 16 * dp + 32 * pt, 2);
        }
        assert((raw / 33554432) % 2 == dd) by {
            lemma_field_split(
                mc + 1024 * rv + 1048576 * pc + 8388608 * ep + 16777216 * ux,
                dd + 2 * (uc + 2 * up + 4 * us + 8 * dp + 16 * pt),
                33554432,
            );
            lemma_field_split(dd, uc + 2 * up + 4 * us + 8 * dp + 16 * pt, 2);
        }
        assert((raw / 67108864) % 2 == uc) by {
            lemma_field_split(
                mc + 1024 * rv + 1048576 * pc + 8388608 * ep + 16777216 * ux + 33554432 * dd,
                uc + 2 * (up + 2 * us + 4 * dp + 8 * pt),
                67108864,
            );
            lemma_field_split(uc, up + 2 * us + 4 * dp + 8 * pt, 2);
        }
        assert((raw / 134217728) % 2 == up) by {
            lemma_field_split(
                mc + 1024 * rv + 1048576 * pc + 8388608 * ep + 16777216 * ux + 33554432 * dd
                    + 67108864 * uc,
                up + 2 * (us + 2 * dp + 4 * pt),
                134217728,
            );
            lemma_field_split(up, us + 2 * dp + 4 * pt, 2);
        }
        assert((raw / 268435456) % 2 == us) by {
            lemma_field_split(
                mc + 1024 * rv + 1048576 * pc + 8388608 * ep + 16777216 * ux + 33554432 * dd
                    + 67108864 * uc + 134217728 * up,
                us + 2 * (dp + 2 * pt),
                268435456,
            );
            lemma_field_split(us, dp + 2 * pt, 2);
        }
        assert((raw / 536870912) % 2 == dp) by {
            lemma_field_split(
                mc + 1024 * rv + 1048576 * pc + 8388608 * ep + 16777216 * ux + 33554432 * dd
                    + 67108864 * uc + 134217728 * up + 268435456 * us,
                dp + 2 * pt,
                536870912,
            );
            lemma_field_split(dp, pt, 2);
        }
        assert(raw / 1073741824 == pt) by {
            lemma_field_split(
                mc + 1024 * rv + 1048576 * pc + 8388608 * ep + 16777216 * ux + 33554432 * dd
                    + 67108864 * uc + 134217728 * up + 268435456 * us + 536870912 * dp,
                pt,
                1073741824,
            );
        }
    }

    /// Maximum current in mA: the raw field counts 10 mA units.
    pub open spec fn spec_max_current(self) -> u32 {
        (self.raw_max_current * 10) as u32
    }

    /// Voltage in mV: the raw field counts 50 mV units.
    pub open spec fn spec_voltage(self) -> u32 {
        (self.raw_voltage * 50) as u32
    }

    /// Power in mW.
    pub open spec fn spec_power(self) -> u32 {
        (self.spec_voltage() * self.spec_max_current() / 1000) as u32
    }

    pub fn max_current(&self) -> (r: u32)
        ensures
            r == self.spec_max_current(),
    {
        self.raw_max_current as u32 * 10
    }

    pub fn voltage(&self) -> (r: u32)
        ensures
            r == self.spec_voltage(),
    {
        self.raw_voltage as u32 * 50
    }

    pub fn power(&self) -> (r: u32)
        requires
            self.wf(),
        ensures
            r == self.spec_power(),
    {
        let v = self.voltage();
        let c = self.max_current();
        proof {
            assert(v * c <= 51150 * 10230) by (nonlinear_arith)
                requires
                    v <= 51150 && c <= 10230,
            ;
        }
        v * c / 1000
    }
}

/// Request for a fixed or variable supply (32 bits): operating currents in
/// 10 mA units, negotiation flags, and the 1-based position of the selected
/// offer in the source's capability list.
#[derive(Clone, Copy, Debug, PartialEq, Eq, Structural)]
pub struct FixedVariableSupplyRequest {
    /// Bits 0..10, unit 10 mA.
    pub raw_min_operating_current: u16,
    /// Bits 10..20, unit 10 mA.
    pub raw_operating_current: u16,
    /// Bit 22.
    pub epr_mode_capable: bool,
    /// Bit 23.
    pub unchunked_extended_messages_supported: bool,
    /// Bit 24.
    pub no_usb_suspend: bool,
    /// Bit 25.
    pub usb_communications_capable: bool,
    /// Bit 26.
    pub capability_mismatch: bool,
    /// Bit 27.
    pub give_back: bool,
    /// Bits 28..32.
    pub object_position: u8,
}

impl FixedVariableSupplyRequest {
    pub open spec fn wf(self) -> bool {
        &&& self.raw_min_operating_current < 1024
        &&& self.raw_operating_current < 1024
        &&& self.object_position < 16
    }

    pub open spec fn spec_encode(self) -> u32
        recommends
            self.wf(),
    {
        (self.raw_min_operating_current as int + 1024 * self.raw_operating_current as int + 4194304
            * b2i(self.epr_mode_capable) + 8388608 * b2i(
            self.unchunked_extended_messages_supported,
        ) + 16777216 * b2i(self.no_usb_suspend) + 33554432 * b2i(self.usb_communications_capable)
            + 67108864 * b2i(self.capability_mismatch) + 134217728 * b2i(self.give_back)
            + 268435456 * self.object_position as int) as u32
    }

    pub open spec fn spec_decode(b: u32) -> FixedVariableSupplyRequest {
        FixedVariableSupplyRequest {
            raw_min_operating_current: (b % 1024) as u16,
            raw_operating_current: ((b / 1024) % 1024) as u16,
            epr_mode_capable: (b / 4194304) % 2 == 1,
            unchunked_extended_messages_supported: (b / 8388608) % 2 == 1,
            no_usb_suspend: (b / 16777216) % 2 == 1,
            usb_communications_capable: (b / 33554432) % 2 == 1,
            capability_mismatch: (b / 67108864) % 2 == 1,
            give_back: (b / 134217728) % 2 == 1,
            object_position: (b / 268435456) as u8,
        }
    }

    pub fn new() -> (r: FixedVariableSupplyRequest)
        ensures
            r == Self::spec_decode(0),
            r.wf(),
    {
        FixedVariableSupplyRequest {
            raw_min_operating_current: 0,
            raw_operating_current: 0,
            epr_mode_capable: false,
            unchunked_extended_messages_supported: false,
            no_usb_suspend: false,
            usb_communications_capable: false,
            capability_mismatch: false,
            give_back: false,
            object_position: 0,
        }
    }

    /// Sets the operating current from a value in mA; the raw field counts
    /// 10 mA units and is masked to its 10-bit width.
    pub fn with_operating_current(self, val: u32) -> (r: FixedVariableSupplyRequest)
        ensures
            r == (FixedVariableSupplyRequest {
                raw_operating_current: ((val / 10) % 1024) as u16,
                ..self
            }),
    {
        FixedVariableSupplyRequest { raw_operating_current: ((val / 10) % 1024) as u16, ..self }
    }

    /// Sets the minimum operating current from a value in mA; the raw field
    /// counts 10 mA units and is masked to its 10-bit width.
    pub fn with_min_operating_current(self, val: u32) -> (r: FixedVariableSupplyRequest)
        ensures
            r == (FixedVariableSupplyRequest {
                raw_min_operating_current: ((val / 10) % 1024) as u16,
                ..self
            }),
    {
        FixedVariableSupplyRequest { raw_min_operating_current: ((val / 10) % 1024) as u16, ..self }
    }

    pub fn with_no_usb_suspend(self, v: bool) -> (r: FixedVariableSupplyRequest)
        ensures
            r == (FixedVariableSupplyRequest { no_usb_suspend: v, ..self }),
    {
        FixedVariableSupplyRequest { no_usb_suspend: v, ..self }
    }

    /// Sets the 1-based position of the selected offer, masked to 4 bits.
    pub fn with_object_position(self, v: u8) -> (r: FixedVariableSupplyRequest)
        ensures
            r == (FixedVariableSupplyRequest { object_position: (v % 16) as u8, ..self }),
    {
        FixedVariableSupplyRequest { object_position: v % 16, ..self }
    }

    pub fn encode(&self) -> (r: u32)
        requires
            self.wf(),
        ensures
            r == self.spec_encode(),
            Self::spec_decode(r) == *self,
    {
        proof {
            self.lemma_encode_decode();
        }
        self.raw_min_operating_current as u32 + 1024 * self.raw_operating_current as u32 + (
        if self.epr_mode_capable {
            4194304
        } else {
            0
        }) + (if self.unchunked_extended_messages_supported {
            8388608
        } else {
            0
        }) + (if self.no_usb_suspend {
            16777216
        } else {
            0
        }) + (if self.usb_communications_capable {
            33554432
        } else {
            0
        }) + (if self.capability_mismatch {
            67108864
        } else {
            0
        }) + (if self.give_back {
            134217728
        } else {
            0
        }) + 268435456 * self.object_position as u32
    }

    pub fn decode(b: u32) -> (r: FixedVariableSupplyRequest)
        ensures
            r == Self::spec_decode(b),
            r.wf(),
    {
        FixedVariableSupplyRequest {
            raw_min_operating_current: (b % 1024) as u16,
            raw_operating_current: ((b / 1024) % 1024) as u16,
            epr_mode_capable: (b / 4194304) % 2 == 1,
            unchunked_extended_messages_supported: (b / 8388608) % 2 == 1,
            no_usb_suspend: (b / 16777216) % 2 == 1,
            usb_communications_capable: (b / 33554432) % 2 == 1,
            capability_mismatch: (b / 67108864) % 2 == 1,
            give_back: (b / 134217728) % 2 == 1,
            object_position: (b / 268435456) as u8,
        }
    }

    /// Round-trip law for this data object.
    #[verifier::rlimit(50)]
    pub proof fn lemma_encode_decode(self)
        requires
            self.wf(),
        ensures
            Self::spec_decode(self.spec_encode()) == self,
    {
        let mn = self.raw_min_operating_current as int;
        let oc = self.raw_operating_current as int;
        let ep = b2i(self.epr_mode_capable);
        let ux = b2i(self.unchunked_extended_messages_supported);
        let ns = b2i(self.no_usb_suspend);
        let uc = b2i(self.usb_communications_capable);
        let cm = b2i(self.capability_mismatch);
        let gb = b2i(self.give_back);
        let op = self.object_position as int;
        let t22 = ep + 2 * ux + 4 * ns + 8 * uc + 16 * cm + 32 * gb + 64 * op;
        lemma_field_split(mn, oc + 1024 * (4 * t22), 1024);
        lemma_field_split(oc, 4 * t22, 1024);
        lemma_field_split(mn + 1024 * oc, t22, 4194304);
        lemma_field_split(ep, ux + 2 * ns + 4 * uc + 8 * cm + 16 * gb + 32 * op, 2);
        lemma_field_split(
            mn + 1024 * oc + 4194304 * ep,
            ux + 2 * ns + 4 * uc + 8 * cm + 16 * gb + 32 * op,
            8388608,
        );
        lemma_field_split(ux, ns + 2 * uc + 4 * cm + 8 * gb + 16 * op, 2);
        lemma_field_split(
            mn + 1024 * oc + 4194304 * ep + 8388608 * ux,
            ns + 2 * uc + 4 * cm + 8 * gb + 16 * op,
            16777216,
        );
        lemma_field_split(ns, uc + 2 * cm + 4 * gb + 8 * op, 2);
        lemma_field_split(
            mn + 1024 * oc + 4194304 * ep + 8388608 * ux + 16777216 * ns,
            uc + 2 * cm + 4 * gb + 8 * op,
            33554432,
        );
        lemma_field_split(uc, cm + 2 * gb + 4 * op, 2);
        lemma_field_split(
            mn + 1024 * oc + 4194304 * ep + 8388608 * ux + 16777216 * ns + 33554432 * uc,
            cm + 2 * gb + 4 * op,
            67108864,
        );
        lemma_field_split(cm, gb + 2 * op, 2);
        lemma_field_split(
            mn + 1024 * oc + 4194304 * ep + 8388608 * ux + 16777216 * ns + 33554432 * uc + 67108864
                * cm,
            gb + 2 * op,
            134217728,
        );
        lemma_field_split(gb, op, 2);
        lemma_field_split(
            mn + 1024 * oc + 4194304 * ep + 8388608 * ux + 16777216 * ns + 33554432 * uc + 67108864
                * cm + 134217728 * gb,
            op,
            268435456,
        );
    }
}

} // verus!
