//! Register codec and FIFO framing for the PD transceiver chip.
//!
//! Each control or status register is an 8-bit packed integer with named
//! bit-range fields; encoding a well-formed value and decoding the result is
//! the identity.  Reserved bits encode as zero and are ignored on decode.
//! The module also defines the FIFO token alphabet and the fixed-capacity
//! transmit buffer with its start- and end-of-packet framing.

use crate::bits::{b2i, lemma_field_split, lemma_u8_bit_split};
use crate::Error;
use vstd::prelude::*;

verus! {

/// Bus address of the transceiver chip.
pub const FUSB302_ADDR: u8 = 0x22;

/// Register address map of the transceiver chip.
#[derive(Clone, Copy, Debug, PartialEq, Eq, Structural)]
pub enum Fusb302Register {
    DeviceId,
    Switches0,
    Switches1,
    Measure,
    Slice,
    Control0,
    Control1,
    Control2,
    Control3,
    Mask1,
    Power,
    Reset,
    OCPreg,
    MaskA,
    MaskB,
    Control4,
    Status0A,
    Status1A,
    InterruptA,
    InterruptB,
    Status0,
    Status1,
    Interrupt,
    Fifos,
}

impl Fusb302Register {
    /// Address byte written on the bus to select this register.
    pub open spec fn spec_addr(self) -> u8 {
        match self {
            Fusb302Register::DeviceId => 0x01,
            Fusb302Register::Switches0 => 0x02,
            Fusb302Register::Switches1 => 0x03,
            Fusb302Register::Measure => 0x04,
            Fusb302Register::Slice => 0x05,
            Fusb302Register::Control0 => 0x06,
            Fusb302Register::Control1 => 0x07,
            Fusb302Register::Control2 => 0x08,
            Fusb302Register::Control3 => 0x09,
            Fusb302Register::Mask1 => 0x0a,
            Fusb302Register::Power => 0x0b,
            Fusb302Register::Reset => 0x0c,
            Fusb302Register::OCPreg => 0x0d,
            Fusb302Register::MaskA => 0x0e,
            Fusb302Register::MaskB => 0x0f,
            Fusb302Register::Control4 => 0x10,
            Fusb302Register::Status0A => 0x3c,
            Fusb302Register::Status1A => 0x3d,
            Fusb302Register::InterruptA => 0x3e,
            Fusb302Register::InterruptB => 0x3f,
            Fusb302Register::Status0 => 0x40,
            Fusb302Register::Status1 => 0x41,
            Fusb302Register::Interrupt => 0x42,
            Fusb302Register::Fifos => 0x43,
        }
    }

    pub fn addr(self) -> (r: u8)
        ensures
            r == self.spec_addr(),
    {
        match self {
            Fusb302Register::DeviceId => 0x01,
            Fusb302Register::Switches0 => 0x02,
            Fusb302Register::Switches1 => 0x03,
            Fusb302Register::Measure => 0x04,
            Fusb302Register::Slice => 0x05,
            Fusb302Register::Control0 => 0x06,
            Fusb302Register::Control1 => 0x07,
            Fusb302Register::Control2 => 0x08,
            Fusb302Register::Control3 => 0x09,
            Fusb302Register::Mask1 => 0x0a,
            Fusb302Register::Power => 0x0b,
            Fusb302Register::Reset => 0x0c,
            Fusb302Register::OCPreg => 0x0d,
            Fusb302Register::MaskA => 0x0e,
            Fusb302Register::MaskB => 0x0f,
            Fusb302Register::Control4 => 0x10,
            Fusb302Register::Status0A => 0x3c,
            Fusb302Register::Status1A => 0x3d,
            Fusb302Register::InterruptA => 0x3e,
            Fusb302Register::InterruptB => 0x3f,
            Fusb302Register::Status0 => 0x40,
            Fusb302Register::Status1 => 0x41,
            Fusb302Register::Interrupt => 0x42,
            Fusb302Register::Fifos => 0x43,
        }
    }
}

/// DEVICE ID register: chip revision, product line and version.
#[derive(Clone, Copy, Debug, PartialEq, Eq, Structural)]
pub struct DeviceId {
    /// Bits 0..2.
    pub revision: u8,
    /// Bits 2..4.
    pub product: u8,
    /// Bits 4..8.
    pub version: u8,
}

impl DeviceId {
    pub open spec fn wf(self) -> bool {
        &&& self.revision < 4
        &&& self.product < 4
        &&& self.version < 16
    }

    pub open spec fn spec_encode(self) -> u8
        recommends
            self.wf(),
    {
        (self.revision as int + 4 * self.product as int + 16 * self.version as int) as u8
    }

    pub open spec fn spec_decode(b: u8) -> DeviceId {
        DeviceId { revision: (b % 4) as u8, product: ((b / 4) % 4) as u8, version: (b / 16) as u8 }
    }

    pub fn encode(&self) -> (r: u8)
        requires
            self.wf(),
        ensures
            r == self.spec_encode(),
            Self::spec_decode(r) == *self,
    {
        proof {
            self.lemma_encode_decode();
        }
        self.revision + 4 * self.product + 16 * self.version
    }

    pub fn decode(b: u8) -> (r: DeviceId)
        ensures
            r == Self::spec_decode(b),
            r.wf(),
    {
        DeviceId { revision: b % 4, product: (b / 4) % 4, version: b / 16 }
    }

    /// Round-trip law for this register.
    pub proof fn lemma_encode_decode(self)
        requires
            self.wf(),
        ensures
            Self::spec_decode(self.spec_encode()) == self,
    {
        let rev = self.revision as int;
        let prod = self.product as int;
        let ver = self.version as int;
        lemma_field_split(rev, prod + 4 * ver, 4);
        lemma_field_split(rev + 4 * prod, ver, 16);
        lemma_field_split(prod, ver, 4);
    }
}

/// SWITCHES0 register: CC pulldown, measurement and pull-up switches.
#[derive(Clone, Copy, Debug, PartialEq, Eq, Structural)]
pub struct Switches0 {
    /// Bit 0.
    pub pdwn1: bool,
    /// Bit 1.
    pub pdwn2: bool,
    /// Bit 2.
    pub meas_cc1: bool,
    /// Bit 3.
    pub meas_cc2: bool,
    /// Bit 4.
    pub vconn_cc1: bool,
    /// Bit 5.
    pub vconn_cc2: bool,
    /// Bit 6.
    pub pu_en1: bool,
    /// Bit 7.
    pub pu_en2: bool,
}

impl Switches0 {
    pub open spec fn spec_encode(self) -> u8 {
        (b2i(self.pdwn1) + 2 * b2i(self.pdwn2) + 4 * b2i(self.meas_cc1) + 8 * b2i(self.meas_cc2)
            + 16 * b2i(self.vconn_cc1) + 32 * b2i(self.vconn_cc2) + 64 * b2i(self.pu_en1) + 128
            * b2i(self.pu_en2)) as u8
    }

    pub open spec fn spec_decode(b: u8) -> Switches0 {
        Switches0 {
            pdwn1: b % 2 == 1,
            pdwn2: (b / 2) % 2 == 1,
            meas_cc1: (b / 4) % 2 == 1,
            meas_cc2: (b / 8) % 2 == 1,
            vconn_cc1: (b / 16) % 2 == 1,
            vconn_cc2: (b / 32) % 2 == 1,
            pu_en1: (b / 64) % 2 == 1,
            pu_en2: b / 128 == 1,
        }
    }

    pub fn encode(&self) -> (r: u8)
        ensures
            r == self.spec_encode(),
            Self::spec_decode(r) == *self,
    {
        proof {
            self.lemma_encode_decode();
        }
        (if self.pdwn1 {
            1
        } else {
            0
        }) + (if self.pdwn2 {
            2
        } else {
            0
        }) + (if self.meas_cc1 {
            4
        } else {
            0
        }) + (if self.meas_cc2 {
            8
        } else {
            0
        }) + (if self.vconn_cc1 {
            16
        } else {
            0
        }) + (if self.vconn_cc2 {
            32
        } else {
            0
        }) + (if self.pu_en1 {
            64
        } else {
            0
        }) + (if self.pu_en2 {
            128
        } else {
            0
        })
    }

    pub fn decode(b: u8) -> (r: Switches0)
        ensures
            r == Self::spec_decode(b),
    {
        Switches0 {
            pdwn1: b % 2 == 1,
            pdwn2: (b / 2) % 2 == 1,
            meas_cc1: (b / 4) % 2 == 1,
            meas_cc2: (b / 8) % 2 == 1,
            vconn_cc1: (b / 16) % 2 == 1,
            vconn_cc2: (b / 32) % 2 == 1,
            pu_en1: (b / 64) % 2 == 1,
            pu_en2: b / 128 == 1,
        }
    }

    /// Round-trip law for this register.
    pub proof fn lemma_encode_decode(self)
        ensures
            Self::spec_decode(self.spec_encode()) == self,
    {
        lemma_u8_bit_split(
            b2i(self.pdwn1),
            b2i(self.pdwn2),
            b2i(self.meas_cc1),
            b2i(self.meas_cc2),
            b2i(self.vconn_cc1),
            b2i(self.vconn_cc2),
            b2i(self.pu_en1),
            b2i(self.pu_en2),
        );
    }
}

/// SWITCHES1 register: transmit-line selection, automatic CRC replies and
/// the advertised protocol revision.
#[derive(Clone, Copy, Debug, PartialEq, Eq, Structural)]
pub struct Switches1 {
    /// Bit 0.
    pub txcc1: bool,
    /// Bit 1.
    pub txcc2: bool,
    /// Bit 2.
    pub auto_crc: bool,
    /// Bit 4.
    pub data_role: bool,
    /// Bits 5..7.
    pub spec_rev: u8,
    /// Bit 7.
    pub power_role: bool,
}

impl Switches1 {
    pub open spec fn wf(self) -> bool {
        self.spec_rev < 4
    }

    pub open spec fn spec_encode(self) -> u8
        recommends
            self.wf(),
    {
        (b2i(self.txcc1) + 2 * b2i(self.txcc2) + 4 * b2i(self.auto_crc) + 16 * b2i(self.data_role)
            + 32 * self.spec_rev as int + 128 * b2i(self.power_role)) as u8
    }

    pub open spec fn spec_decode(b: u8) -> Switches1 {
        Switches1 {
            txcc1: b % 2 == 1,
            txcc2: (b / 2) % 2 == 1,
            auto_crc: (b / 4) % 2 == 1,
            data_role: (b / 16) % 2 == 1,
            spec_rev: ((b / 32) % 4) as u8,
            power_role: b / 128 == 1,
        }
    }

    pub fn encode(&self) -> (r: u8)
        requires
            self.wf(),
        ensures
            r == self.spec_encode(),
            Self::spec_decode(r) == *self,
    {
        proof {
            self.lemma_encode_decode();
        }
        (if self.txcc1 {
            1
        } else {
            0
        }) + (if self.txcc2 {
            2
        } else {
            0
        }) + (if self.auto_crc {
            4
        } else {
            0
        }) + (if self.data_role {
            16
        } else {
            0
        }) + 32 * self.spec_rev + (if self.power_role {
            128
        } else {
            0
        })
    }

    pub fn decode(b: u8) -> (r: Switches1)
        ensures
            r == Self::spec_decode(b),
            r.wf(),
    {
        Switches1 {
            txcc1: b % 2 == 1,
            txcc2: (b / 2) % 2 == 1,
            auto_crc: (b / 4) % 2 == 1,
            data_role: (b / 16) % 2 == 1,
            spec_rev: ((b / 32) % 4) as u8,
            power_role: b / 128 == 1,
        }
    }

    /// Round-trip law for this register.
    pub proof fn lemma_encode_decode(self)
        requires
            self.wf(),
        ensures
            Self::spec_decode(self.spec_encode()) == self,
    {
        let t1 = b2i(self.txcc1);
        let t2 = b2i(self.txcc2);
        let ac = b2i(self.auto_crc);
        let dr = b2i(self.data_role);
        let rev = self.spec_rev as int;
        let pr = b2i(self.power_role);
        lemma_field_split(t1, t2 + 2 * ac + 8 * dr + 16 * rev + 64 * pr, 2);
        lemma_field_split(t1 + 2 * t2, ac + 4 * dr + 8 * rev + 32 * pr, 4);
        lemma_field_split(t1 + 2 * t2 + 4 * ac, dr + 2 * rev + 8 * pr, 16);
        lemma_field_split(t1 + 2 * t2 + 4 * ac + 16 * dr, rev + 4 * pr, 32);
        lemma_field_split(t1 + 2 * t2 + 4 * ac + 16 * dr + 32 * rev, pr, 128);
        lemma_field_split(t2, ac + 4 * dr + 8 * rev + 32 * pr, 2);
        lemma_field_split(ac, dr + 2 * rev + 8 * pr, 2);
        lemma_field_split(dr, rev + 4 * pr, 2);
        lemma_field_split(rev, pr, 4);
    }
}

/// MEASURE register: comparator threshold and VBUS measurement switch.
#[derive(Clone, Copy, Debug, PartialEq, Eq, Structural)]
pub struct Measure {
    /// Bits 0..6.
    pub mdac: u8,
    /// Bit 6.
    pub meas_vbus: bool,
}

impl Measure {
    pub open spec fn wf(self) -> bool {
        self.mdac < 64
    }

    pub open spec fn spec_encode(self) -> u8
        recommends
            self.wf(),
    {
        (self.mdac as int + 64 * b2i(self.meas_vbus)) as u8
    }

    pub open spec fn spec_decode(b: u8) -> Measure {
        Measure { mdac: (b % 64) as u8, meas_vbus: (b / 64) % 2 == 1 }
    }

    pub fn encode(&self) -> (r: u8)
        requires
            self.wf(),
        ensures
            r == self.spec_encode(),
            Self::spec_decode(r) == *self,
    {
        proof {
            self.lemma_encode_decode();
        }
        self.mdac + (if self.meas_vbus {
            64
        } else {
            0
        })
    }

    pub fn decode(b: u8) -> (r: Measure)
        ensures
            r == Self::spec_decode(b),
            r.wf(),
    {
        Measure { mdac: b % 64, meas_vbus: (b / 64) % 2 == 1 }
    }

    /// Round-trip law for this register.
    pub proof fn lemma_encode_decode(self)
        requires
            self.wf(),
        ensures
            Self::spec_decode(self.spec_encode()) == self,
    {
        lemma_field_split(self.mdac as int, b2i(self.meas_vbus), 64);
    }
}

/// SLICE register: slicer reference level and hysteresis.
#[derive(Clone, Copy, Debug, PartialEq, Eq, Structural)]
pub struct Slice {
    /// Bit 0.
    pub sdac0: bool,
    /// Bit 1.
    pub sdac1: bool,
    /// Bit 2.
    pub sdac2: bool,
    /// Bit 3.
    pub sdac3: bool,
    /// Bit 4.
    pub sdac4: bool,
    /// Bit 5.
    pub sdac5: bool,
    /// Bit 6.
    pub sdac_hys2: bool,
    /// Bit 7.
    pub sdac_hys1: bool,
}

impl Slice {
    pub open spec fn spec_encode(self) -> u8 {
        (b2i(self.sdac0) + 2 * b2i(self.sdac1) + 4 * b2i(self.sdac2) + 8 * b2i(self.sdac3) + 16
            * b2i(self.sdac4) + 32 * b2i(self.sdac5) + 64 * b2i(self.sdac_hys2) + 128 * b2i(
            self.sdac_hys1,
        )) as u8
    }

    pub open spec fn spec_decode(b: u8) -> Slice {
        Slice {
            sdac0: b % 2 == 1,
            sdac1: (b / 2) % 2 == 1,
            sdac2: (b / 4) % 2 == 1,
            sdac3: (b / 8) % 2 == 1,
            sdac4: (b / 16) % 2 == 1,
            sdac5: (b / 32) % 2 == 1,
            sdac_hys2: (b / 64) % 2 == 1,
            sdac_hys1: b / 128 == 1,
        }
    }

    pub fn encode(&self) -> (r: u8)
        ensures
            r == self.spec_encode(),
            Self::spec_decode(r) == *self,
    {
        proof {
            self.lemma_encode_decode();
        }
        (if self.sdac0 {
            1
        } else {
            0
        }) + (if self.sdac1 {
            2
        } else {
            0
        }) + (if self.sdac2 {
            4
        } else {
            0
        }) + (if self.sdac3 {
            8
        } else {
            0
        }) + (if self.sdac4 {
            16
        } else {
            0
        }) + (if self.sdac5 {
            32
        } else {
            0
        }) + (if self.sdac_hys2 {
            64
        } else {
            0
        }) + (if self.sdac_hys1 {
            128
        } else {
            0
        })
    }

    pub fn decode(b: u8) -> (r: Slice)
        ensures
            r == Self::spec_decode(b),
    {
        Slice {
            sdac0: b % 2 == 1,
            sdac1: (b / 2) % 2 == 1,
            sdac2: (b / 4) % 2 == 1,
            sdac3: (b / 8) % 2 == 1,
            sdac4: (b / 16) % 2 == 1,
            sdac5: (b / 32) % 2 == 1,
            sdac_hys2: (b / 64) % 2 == 1,
            sdac_hys1: b / 128 == 1,
        }
    }

    /// Round-trip law for this register.
    pub proof fn lemma_encode_decode(self)
        ensures
            Self::spec_decode(self.spec_encode()) == self,
    {
        lemma_u8_bit_split(
            b2i(self.sdac0),
            b2i(self.sdac1),
            b2i(self.sdac2),
            b2i(self.sdac3),
            b2i(self.sdac4),
            b2i(self.sdac5),
            b2i(self.sdac_hys2),
            b2i(self.sdac_hys1),
        );
    }
}

/// CONTROL0 register: transmit start/flush, host current advertisement and
/// the global interrupt mask.
#[derive(Clone, Copy, Debug, PartialEq, Eq, Structural)]
pub struct Control0 {
    /// Bit 0.
    pub tx_start: bool,
    /// Bit 1.
    pub auto_pre: bool,
    /// Bits 2..4.
    pub host_cur: u8,
    /// Bit 5.
    pub int_mask: bool,
    /// Bit 6.
    pub tx_flush: bool,
}

impl Control0 {
    pub open spec fn wf(self) -> bool {
        self.host_cur < 4
    }

    pub open spec fn spec_encode(self) -> u8
        recommends
            self.wf(),
    {
        (b2i(self.tx_start) + 2 * b2i(self.auto_pre) + 4 * self.host_cur as int + 32 * b2i(
            self.int_mask,
        ) + 64 * b2i(self.tx_flush)) as u8
    }

    pub open spec fn spec_decode(b: u8) -> Control0 {
        Control0 {
            tx_start: b % 2 == 1,
            auto_pre: (b / 2) % 2 == 1,
            host_cur: ((b / 4) % 4) as u8,
            int_mask: (b / 32) % 2 == 1,
            tx_flush: (b / 64) % 2 == 1,
        }
    }

    pub fn encode(&self) -> (r: u8)
        requires
            self.wf(),
        ensures
            r == self.spec_encode(),
            Self::spec_decode(r) == *self,
    {
        proof {
            self.lemma_encode_decode();
        }
        (if self.tx_start {
            1
        } else {
            0
        }) + (if self.auto_pre {
            2
        } else {
            0
        }) + 4 * self.host_cur + (if self.int_mask {
            32
        } else {
            0
        }) + (if self.tx_flush {
            64
        } else {
            0
        })
    }

    pub fn decode(b: u8) -> (r: Control0)
        ensures
            r == Self::spec_decode(b),
            r.wf(),
    {
        Control0 {
            tx_start: b % 2 == 1,
            auto_pre: (b / 2) % 2 == 1,
            host_cur: ((b / 4) % 4) as u8,
            int_mask: (b / 32) % 2 == 1,
            tx_flush: (b / 64) % 2 == 1,
        }
    }

    /// Round-trip law for this register.
    pub proof fn lemma_encode_decode(self)
        requires
            self.wf(),
        ensures
            Self::spec_decode(self.spec_encode()) == self,
    {
        let ts = b2i(self.tx_start);
        let ap = b2i(self.auto_pre);
        let hc = self.host_cur as int;
        let im = b2i(self.int_mask);
        let tf = b2i(self.tx_flush);
        lemma_field_split(ts, ap + 2 * hc + 16 * im + 32 * tf, 2);
        lemma_field_split(ts + 2 * ap, hc + 8 * im + 16 * tf, 4);
        lemma_field_split(ts + 2 * ap + 4 * hc, im + 2 * tf, 32);
        lemma_field_split(ts + 2 * ap + 4 * hc + 32 * im, tf, 64);
        lemma_field_split(ap, hc + 8 * im + 16 * tf, 2);
        lemma_field_split(hc, 2 * im + 4 * tf, 4);
        lemma_field_split(im, tf, 2);
        lemma_field_split(tf, 0, 2);
    }
}

/// CONTROL1 register: start-of-packet filters and receive-FIFO flush.
#[derive(Clone, Copy, Debug, PartialEq, Eq, Structural)]
pub struct Control1 {
    /// Bit 0.
    pub ensop1: bool,
    /// Bit 1.
    pub ensop2: bool,
    /// Bit 2.
    pub rx_flush: bool,
    /// Bit 4.
    pub bist_mode2: bool,
    /// Bit 5.
    pub ensop1db: bool,
    /// Bit 6.
    pub ensop2db: bool,
}

impl Control1 {
    pub open spec fn spec_encode(self) -> u8 {
        (b2i(self.ensop1) + 2 * b2i(self.ensop2) + 4 * b2i(self.rx_flush) + 16 * b2i(
            self.bist_mode2,
        ) + 32 * b2i(self.ensop1db) + 64 * b2i(self.ensop2db)) as u8
    }

    pub open spec fn spec_decode(b: u8) -> Control1 {
        Control1 {
            ensop1: b % 2 == 1,
            ensop2: (b / 2) % 2 == 1,
            rx_flush: (b / 4) % 2 == 1,
            bist_mode2: (b / 16) % 2 == 1,
            ensop1db: (b / 32) % 2 == 1,
            ensop2db: (b / 64) % 2 == 1,
        }
    }

    pub fn encode(&self) -> (r: u8)
        ensures
            r == self.spec_encode(),
            Self::spec_decode(r) == *self,
    {
        proof {
            self.lemma_encode_decode();
        }
        (if self.ensop1 {
            1
        } else {
            0
        }) + (if self.ensop2 {
            2
        } else {
            0
        }) + (if self.rx_flush {
            4
        } else {
            0
        }) + (if self.bist_mode2 {
            16
        } else {
            0
        }) + (if self.ensop1db {
            32
        } else {
            0
        }) + (if self.ensop2db {
            64
        } else {
            0
        })
    }

    pub fn decode(b: u8) -> (r: Control1)
        ensures
            r == Self::spec_decode(b),
    {
        Control1 {
            ensop1: b % 2 == 1,
            ensop2: (b / 2) % 2 == 1,
            rx_flush: (b / 4) % 2 == 1,
            bist_mode2: (b / 16) % 2 == 1,
            ensop1db: (b / 32) % 2 == 1,
            ensop2db: (b / 64) % 2 == 1,
        }
    }

    /// Round-trip law for this register.
    pub proof fn lemma_encode_decode(self)
        ensures
            Self::spec_decode(self.spec_encode()) == self,
    {
        lemma_u8_bit_split(
            b2i(self.ensop1),
            b2i(self.ensop2),
            b2i(self.rx_flush),
            0,
            b2i(self.bist_mode2),
            b2i(self.ensop1db),
            b2i(self.ensop2db),
            0,
        );
    }
}

/// CONTROL2 register: toggle-mode configuration.
#[derive(Clone, Copy, Debug, PartialEq, Eq, Structural)]
pub struct Control2 {
    /// Bit 0.
    pub toggle: bool,
    /// Bits 1..3.
    pub mode: u8,
    /// Bit 3.
    pub wake_en: bool,
    /// Bit 5.
    pub tog_rd_only: bool,
    /// Bit 6.
    pub tog_save_pwr1: bool,
    /// Bit 7.
    pub tog_save_pwr2: bool,
}

impl Control2 {
    pub open spec fn wf(self) -> bool {
        self.mode < 4
    }

    pub open spec fn spec_encode(self) -> u8
        recommends
            self.wf(),
    {
        (b2i(self.toggle) + 2 * self.mode as int + 8 * b2i(self.wake_en) + 32 * b2i(
            self.tog_rd_only,
        ) + 64 * b2i(self.tog_save_pwr1) + 128 * b2i(self.tog_save_pwr2)) as u8
    }

    pub open spec fn spec_decode(b: u8) -> Control2 {
        Control2 {
            toggle: b % 2 == 1,
            mode: ((b / 2) % 4) as u8,
            wake_en: (b / 8) % 2 == 1,
            tog_rd_only: (b / 32) % 2 == 1,
            tog_save_pwr1: (b / 64) % 2 == 1,
            tog_save_pwr2: b / 128 == 1,
        }
    }

    pub fn encode(&self) -> (r: u8)
        requires
            self.wf(),
        ensures
            r == self.spec_encode(),
            Self::spec_decode(r) == *self,
    {
        proof {
            self.lemma_encode_decode();
        }
        (if self.toggle {
            1
        } else {
            0
        }) + 2 * self.mode + (if self.wake_en {
            8
        } else {
            0
        }) + (if self.tog_rd_only {
            32
        } else {
            0
        }) + (if self.tog_save_pwr1 {
            64
        } else {
            0
        }) + (if self.tog_save_pwr2 {
            128
        } else {
            0
        })
    }

    pub fn decode(b: u8) -> (r: Control2)
        ensures
            r == Self::spec_decode(b),
            r.wf(),
    {
        Control2 {
            toggle: b % 2 == 1,
            mode: ((b / 2) % 4) as u8,
            wake_en: (b / 8) % 2 == 1,
            tog_rd_only: (b / 32) % 2 == 1,
            tog_save_pwr1: (b / 64) % 2 == 1,
            tog_save_pwr2: b / 128 == 1,
        }
    }

    /// Round-trip law for this register.
    pub proof fn lemma_encode_decode(self)
        requires
            self.wf(),
        ensures
            Self::spec_decode(self.spec_encode()) == self,
    {
        let tg = b2i(self.toggle);
        let md = self.mode as int;
        let wk = b2i(self.wake_en);
        let tr = b2i(self.tog_rd_only);
        let s1 = b2i(self.tog_save_pwr1);
        let s2 = b2i(self.tog_save_pwr2);
        lemma_field_split(tg, md + 4 * wk + 16 * tr + 32 * s1 + 64 * s2, 2);
        lemma_field_split(tg + 2 * md, wk + 4 * tr + 8 * s1 + 16 * s2, 8);
        lemma_field_split(tg + 2 * md + 8 * wk, tr + 2 * s1 + 4 * s2, 32);
        lemma_field_split(tg + 2 * md + 8 * wk + 32 * tr, s1 + 2 * s2, 64);
        lemma_field_split(tg + 2 * md + 8 * wk + 32 * tr + 64 * s1, s2, 128);
        lemma_field_split(md, wk + 4 * tr + 8 * s1 + 16 * s2, 4);
        lemma_field_split(wk, 2 * tr + 4 * s1 + 8 * s2, 2);
        lemma_field_split(tr, s1 + 2 * s2, 2);
        lemma_field_split(s1, s2, 2);
    }
}

/// CONTROL3 register: automatic packet-retry configuration.
#[derive(Clone, Copy, Debug, PartialEq, Eq, Structural)]
pub struct Control3 {
    /// Bit 0.
    pub auto_retry: bool,
    /// Bits 1..3.
    pub n_retries: u8,
    /// Bit 3.
    pub auto_hardreset: bool,
    /// Bit 4.
    pub auto_softreset: bool,
    /// Bit 5.
    pub bist_t_mode: bool,
    /// Bit 6.
    pub send_hard_reset: bool,
}

impl Control3 {
    pub open spec fn wf(self) -> bool {
        self.n_retries < 4
    }

    pub open spec fn spec_encode(self) -> u8
        recommends
            self.wf(),
    {
        (b2i(self.auto_retry) + 2 * self.n_retries as int + 8 * b2i(self.auto_hardreset) + 16 * b2i(
            self.auto_softreset,
        ) + 32 * b2i(self.bist_t_mode) + 64 * b2i(self.send_hard_reset)) as u8
    }

    pub open spec fn spec_decode(b: u8) -> Control3 {
        Control3 {
            auto_retry: b % 2 == 1,
            n_retries: ((b / 2) % 4) as u8,
            auto_hardreset: (b / 8) % 2 == 1,
            auto_softreset: (b / 16) % 2 == 1,
            bist_t_mode: (b / 32) % 2 == 1,
            send_hard_reset: (b / 64) % 2 == 1,
        }
    }

    pub fn encode(&self) -> (r: u8)
        requires
            self.wf(),
        ensures
            r == self.spec_encode(),
            Self::spec_decode(r) == *self,
    {
        proof {
            self.lemma_encode_decode();
        }
        (if self.auto_retry {
            1
        } else {
            0
        }) + 2 * self.n_retries + (if self.auto_hardreset {
            8
        } else {
            0
        }) + (if self.auto_softreset {
            16
        } else {
            0
        }) + (if self.bist_t_mode {
            32
        } else {
            0
        }) + (if self.send_hard_reset {
            64
        } else {
            0
        })
    }

    pub fn decode(b: u8) -> (r: Control3)
        ensures
            r == Self::spec_decode(b),
            r.wf(),
    {
        Control3 {
            auto_retry: b % 2 == 1,
            n_retries: ((b / 2) % 4) as u8,
            auto_hardreset: (b / 8) % 2 == 1,
            auto_softreset: (b / 16) % 2 == 1,
            bist_t_mode: (b / 32) % 2 == 1,
            send_hard_reset: (b / 64) % 2 == 1,
        }
    }

    /// Round-trip law for this register.
    pub proof fn lemma_encode_decode(self)
        requires
            self.wf(),
        ensures
            Self::spec_decode(self.spec_encode()) == self,
    {
        let ar = b2i(self.auto_retry);
        let nr = self.n_retries as int;
        let ah = b2i(self.auto_hardreset);
        let sr = b2i(self.auto_softreset);
        let bt = b2i(self.bist_t_mode);
        let hr = b2i(self.send_hard_reset);
        lemma_field_split(ar, nr + 4 * ah + 8 * sr + 16 * bt + 32 * hr, 2);
        lemma_field_split(ar + 2 * nr, ah + 2 * sr + 4 * bt + 8 * hr, 8);
        lemma_field_split(ar + 2 * nr + 8 * ah, sr + 2 * bt + 4 * hr, 16);
        lemma_field_split(ar + 2 * nr + 8 * ah + 16 * sr, bt + 2 * hr, 32);
        lemma_field_split(ar + 2 * nr + 8 * ah + 16 * sr + 32 * bt, hr, 64);
        lemma_field_split(nr, ah + 2 * sr + 4 * bt + 8 * hr, 4);
        lemma_field_split(ah, sr + 2 * bt + 4 * hr, 2);
        lemma_field_split(sr, bt + 2 * hr, 2);
        lemma_field_split(bt, hr, 2);
        lemma_field_split(hr, 0, 2);
    }
}

/// MASK1 register: masks for the primary interrupt sources; all clear means
/// everything unmasked.
#[derive(Clone, Copy, Debug, PartialEq, Eq, Structural)]
pub struct Mask1 {
    /// Bit 0.
    pub m_bc_lvl: bool,
    /// Bit 1.
    pub m_collision: bool,
    /// Bit 2.
    pub m_wake: bool,
    /// Bit 3.
    pub m_alert: bool,
    /// Bit 4.
    pub m_crc_chk: bool,
    /// Bit 5.
    pub m_comp_chng: bool,
    /// Bit 6.
    pub m_activity: bool,
    /// Bit 7.
    pub m_vbusok: bool,
}

impl Mask1 {
    pub open spec fn spec_encode(self) -> u8 {
        (b2i(self.m_bc_lvl) + 2 * b2i(self.m_collision) + 4 * b2i(self.m_wake) + 8 * b2i(
            self.m_alert,
        ) + 16 * b2i(self.m_crc_chk) + 32 * b2i(self.m_comp_chng) + 64 * b2i(self.m_activity) + 128
            * b2i(self.m_vbusok)) as u8
    }

    pub open spec fn spec_decode(b: u8) -> Mask1 {
        Mask1 {
            m_bc_lvl: b % 2 == 1,
            m_collision: (b / 2) % 2 == 1,
            m_wake: (b / 4) % 2 == 1,
            m_alert: (b / 8) % 2 == 1,
            m_crc_chk: (b / 16) % 2 == 1,
            m_comp_chng: (b / 32) % 2 == 1,
            m_activity: (b / 64) % 2 == 1,
            m_vbusok: b / 128 == 1,
        }
    }

    pub fn encode(&self) -> (r: u8)
        ensures
            r == self.spec_encode(),
            Self::spec_decode(r) == *self,
    {
        proof {
            self.lemma_encode_decode();
        }
        (if self.m_bc_lvl {
            1
        } else {
            0
        }) + (if self.m_collision {
            2
        } else {
            0
        }) + (if self.m_wake {
            4
        } else {
            0
        }) + (if self.m_alert {
            8
        } else {
            0
        }) + (if self.m_crc_chk {
            16
        } else {
            0
        }) + (if self.m_comp_chng {
            32
        } else {
            0
        }) + (if self.m_activity {
            64
        } else {
            0
        }) + (if self.m_vbusok {
            128
        } else {
            0
        })
    }

    pub fn decode(b: u8) -> (r: Mask1)
        ensures
            r == Self::spec_decode(b),
    {
        Mask1 {
            m_bc_lvl: b % 2 == 1,
            m_collision: (b / 2) % 2 == 1,
            m_wake: (b / 4) % 2 == 1,
            m_alert: (b / 8) % 2 == 1,
            m_crc_chk: (b / 16) % 2 == 1,
            m_comp_chng: (b / 32) % 2 == 1,
            m_activity: (b / 64) % 2 == 1,
            m_vbusok: b / 128 == 1,
        }
    }

    /// Round-trip law for this register.
    pub proof fn lemma_encode_decode(self)
        ensures
            Self::spec_decode(self.spec_encode()) == self,
    {
        lemma_u8_bit_split(
            b2i(self.m_bc_lvl),
            b2i(self.m_collision),
            b2i(self.m_wake),
            b2i(self.m_alert),
            b2i(self.m_crc_chk),
            b2i(self.m_comp_chng),
            b2i(self.m_activity),
            b2i(self.m_vbusok),
        );
    }
}

/// POWER register: the chip's four internal power rails.
#[derive(Clone, Copy, Debug, PartialEq, Eq, Structural)]
pub struct Power {
    /// Bit 0.
    pub pwr0: bool,
    /// Bit 1.
    pub pwr1: bool,
    /// Bit 2.
    pub pwr2: bool,
    /// Bit 3.
    pub pwr3: bool,
}

impl Power {
    pub open spec fn spec_encode(self) -> u8 {
        (b2i(self.pwr0) + 2 * b2i(self.pwr1) + 4 * b2i(self.pwr2) + 8 * b2i(self.pwr3)) as u8
    }

    pub open spec fn spec_decode(b: u8) -> Power {
        Power {
            pwr0: b % 2 == 1,
            pwr1: (b / 2) % 2 == 1,
            pwr2: (b / 4) % 2 == 1,
            pwr3: (b / 8) % 2 == 1,
        }
    }

    pub fn encode(&self) -> (r: u8)
        ensures
            r == self.spec_encode(),
            Self::spec_decode(r) == *self,
    {
        proof {
            self.lemma_encode_decode();
        }
        (if self.pwr0 {
            1
        } else {
            0
        }) + (if self.pwr1 {
            2
        } else {
            0
        }) + (if self.pwr2 {
            4
        } else {
            0
        }) + (if self.pwr3 {
            8
        } else {
            0
        })
    }

    pub fn decode(b: u8) -> (r: Power)
        ensures
            r == Self::spec_decode(b),
    {
        Power {
            pwr0: b % 2 == 1,
            pwr1: (b / 2) % 2 == 1,
            pwr2: (b / 4) % 2 == 1,
            pwr3: (b / 8) % 2 == 1,
        }
    }

    /// Round-trip law for this register.
    pub proof fn lemma_encode_decode(self)
        ensures
            Self::spec_decode(self.spec_encode()) == self,
    {
        lemma_u8_bit_split(
            b2i(self.pwr0),
            b2i(self.pwr1),
            b2i(self.pwr2),
            b2i(self.pwr3),
            0,
            0,
            0,
            0,
        );
    }
}

/// RESET register: chip software reset and PD-logic reset strobes.
#[derive(Clone, Copy, Debug, PartialEq, Eq, Structural)]
pub struct Reset {
    /// Bit 0.
    pub sw_res: bool,
    /// Bit 1.
    pub pd_reset: bool,
}

impl Reset {
    pub open spec fn spec_encode(self) -> u8 {
        (b2i(self.sw_res) + 2 * b2i(self.pd_reset)) as u8
    }

    pub open spec fn spec_decode(b: u8) -> Reset {
        Reset { sw_res: b % 2 == 1, pd_reset: (b / 2) % 2 == 1 }
    }

    pub fn encode(&self) -> (r: u8)
        ensures
            r == self.spec_encode(),
            Self::spec_decode(r) == *self,
    {
        proof {
            self.lemma_encode_decode();
        }
        (if self.sw_res {
            1
        } else {
            0
        }) + (if self.pd_reset {
            2
        } else {
            0
        })
    }

    pub fn decode(b: u8) -> (r: Reset)
        ensures
            r == Self::spec_decode(b),
    {
        Reset { sw_res: b % 2 == 1, pd_reset: (b / 2) % 2 == 1 }
    }

    /// Round-trip law for this register.
    pub proof fn lemma_encode_decode(self)
        ensures
            Self::spec_decode(self.spec_encode()) == self,
    {
        lemma_u8_bit_split(b2i(self.sw_res), b2i(self.pd_reset), 0, 0, 0, 0, 0, 0);
    }
}

/// OCPREG register: over-current protection trip level.
#[derive(Clone, Copy, Debug, PartialEq, Eq, Structural)]
pub struct OCPreg {
    /// Bit 0.
    pub ocp_cur0: bool,
    /// Bit 1.
    pub ocp_cur1: bool,
    /// Bit 2.
    pub ocp_cur2: bool,
    /// Bit 3.
    pub ocp_cur3: bool,
}

impl OCPreg {
    pub open spec fn spec_encode(self) -> u8 {
        (b2i(self.ocp_cur0) + 2 * b2i(self.ocp_cur1) + 4 * b2i(self.ocp_cur2) + 8 * b2i(
            self.ocp_cur3,
        )) as u8
    }

    pub open spec fn spec_decode(b: u8) -> OCPreg {
        OCPreg {
            ocp_cur0: b % 2 == 1,
            ocp_cur1: (b / 2) % 2 == 1,
            ocp_cur2: (b / 4) % 2 == 1,
            ocp_cur3: (b / 8) % 2 == 1,
        }
    }

    pub fn encode(&self) -> (r: u8)
        ensures
            r == self.spec_encode(),
            Self::spec_decode(r) == *self,
    {
        proof {
            self.lemma_encode_decode();
        }
        (if self.ocp_cur0 {
            1
        } else {
            0
        }) + (if self.ocp_cur1 {
            2
        } else {
            0
        }) + (if self.ocp_cur2 {
            4
        } else {
            0
        }) + (if self.ocp_cur3 {
            8
        } else {
            0
        })
    }

    pub fn decode(b: u8) -> (r: OCPreg)
        ensures
            r == Self::spec_decode(b),
    {
        OCPreg {
            ocp_cur0: b % 2 == 1,
            ocp_cur1: (b / 2) % 2 == 1,
            ocp_cur2: (b / 4) % 2 == 1,
            ocp_cur3: (b / 8) % 2 == 1,
        }
    }

    /// Round-trip law for this register.
    pub proof fn lemma_encode_decode(self)
        ensures
            Self::spec_decode(self.spec_encode()) == self,
    {
        lemma_u8_bit_split(
            b2i(self.ocp_cur0),
            b2i(self.ocp_cur1),
            b2i(self.ocp_cur2),
            b2i(self.ocp_cur3),
            0,
            0,
            0,
            0,
        );
    }
}

/// MASKA register: masks for the secondary interrupt sources.
#[derive(Clone, Copy, Debug, PartialEq, Eq, Structural)]
pub struct MaskA {
    /// Bit 0.
    pub m_hardrst: bool,
    /// Bit 1.
    pub m_softrst: bool,
    /// Bit 2.
    pub m_txsent: bool,
    /// Bit 3.
    pub m_hardsent: bool,
    /// Bit 4.
    pub m_retryfail: bool,
    /// Bit 5.
    pub m_softfail: bool,
    /// Bit 6.
    pub m_togdone: bool,
    /// Bit 7.
    pub m_ocp_temp: bool,
}

impl MaskA {
    pub open spec fn spec_encode(self) -> u8 {
        (b2i(self.m_hardrst) + 2 * b2i(self.m_softrst) + 4 * b2i(self.m_txsent) + 8 * b2i(
            self.m_hardsent,
        ) + 16 * b2i(self.m_retryfail) + 32 * b2i(self.m_softfail) + 64 * b2i(self.m_togdone) + 128
            * b2i(self.m_ocp_temp)) as u8
    }

    pub open spec fn spec_decode(b: u8) -> MaskA {
        MaskA {
            m_hardrst: b % 2 == 1,
            m_softrst: (b / 2) % 2 == 1,
            m_txsent: (b / 4) % 2 == 1,
            m_hardsent: (b / 8) % 2 == 1,
            m_retryfail: (b / 16) % 2 == 1,
            m_softfail: (b / 32) % 2 == 1,
            m_togdone: (b / 64) % 2 == 1,
            m_ocp_temp: b / 128 == 1,
        }
    }

    pub fn encode(&self) -> (r: u8)
        ensures
            r == self.spec_encode(),
            Self::spec_decode(r) == *self,
    {
        proof {
            self.lemma_encode_decode();
        }
        (if self.m_hardrst {
            1
        } else {
            0
        }) + (if self.m_softrst {
            2
        } else {
            0
        }) + (if self.m_txsent {
            4
        } else {
            0
        }) + (if self.m_hardsent {
            8
        } else {
            0
        }) + (if self.m_retryfail {
            16
        } else {
            0
        }) + (if self.m_softfail {
            32
        } else {
            0
        }) + (if self.m_togdone {
            64
        } else {
            0
        }) + (if self.m_ocp_temp {
            128
        } else {
            0
        })
    }

    pub fn decode(b: u8) -> (r: MaskA)
        ensures
            r == Self::spec_decode(b),
    {
        MaskA {
            m_hardrst: b % 2 == 1,
            m_softrst: (b / 2) % 2 == 1,
            m_txsent: (b / 4) % 2 == 1,
            m_hardsent: (b / 8) % 2 == 1,
            m_retryfail: (b / 16) % 2 == 1,
            m_softfail: (b / 32) % 2 == 1,
            m_togdone: (b / 64) % 2 == 1,
            m_ocp_temp: b / 128 == 1,
        }
    }

    /// Round-trip law for this register.
    pub proof fn lemma_encode_decode(self)
        ensures
            Self::spec_decode(self.spec_encode()) == self,
    {
        lemma_u8_bit_split(
            b2i(self.m_hardrst),
            b2i(self.m_softrst),
            b2i(self.m_txsent),
            b2i(self.m_hardsent),
            b2i(self.m_retryfail),
            b2i(self.m_softfail),
            b2i(self.m_togdone),
            b2i(self.m_ocp_temp),
        );
    }
}

/// MASKB register: mask for the good-CRC-sent interrupt.
#[derive(Clone, Copy, Debug, PartialEq, Eq, Structural)]
pub struct MaskB {
    /// Bit 0.
    pub m_gcrcsent: bool,
}

impl MaskB {
    pub open spec fn spec_encode(self) -> u8 {
        b2i(self.m_gcrcsent) as u8
    }

    pub open spec fn spec_decode(b: u8) -> MaskB {
        MaskB { m_gcrcsent: b % 2 == 1 }
    }

    pub fn encode(&self) -> (r: u8)
        ensures
            r == self.spec_encode(),
            Self::spec_decode(r) == *self,
    {
        if self.m_gcrcsent {
            1
        } else {
            0
        }
    }

    pub fn decode(b: u8) -> (r: MaskB)
        ensures
            r == Self::spec_decode(b),
    {
        MaskB { m_gcrcsent: b % 2 == 1 }
    }

    /// Round-trip law for this register.
    pub proof fn lemma_encode_decode(self)
        ensures
            Self::spec_decode(self.spec_encode()) == self,
    {
    }
}

/// CONTROL4 register: toggle-exit behavior on audio accessories.
#[derive(Clone, Copy, Debug, PartialEq, Eq, Structural)]
pub struct Control4 {
    /// Bit 0.
    pub tog_exit_aud: bool,
}

impl Control4 {
    pub open spec fn spec_encode(self) -> u8 {
        b2i(self.tog_exit_aud) as u8
    }

    pub open spec fn spec_decode(b: u8) -> Control4 {
        Control4 { tog_exit_aud: b % 2 == 1 }
    }

    pub fn encode(&self) -> (r: u8)
        ensures
            r == self.spec_encode(),
            Self::spec_decode(r) == *self,
    {
        if self.tog_exit_aud {
            1
        } else {
            0
        }
    }

    pub fn decode(b: u8) -> (r: Control4)
        ensures
            r == Self::spec_decode(b),
    {
        Control4 { tog_exit_aud: b % 2 == 1 }
    }

    /// Round-trip law for this register.
    pub proof fn lemma_encode_decode(self)
        ensures
            Self::spec_decode(self.spec_encode()) == self,
    {
    }
}

/// STATUS0A register: reset and retry outcome flags.
#[derive(Clone, Copy, Debug, PartialEq, Eq, Structural)]
pub struct Status0A {
    /// Bit 0.
    pub hardrst: bool,
    /// Bit 1.
    pub softrst: bool,
    /// Bit 2.
    pub power2: bool,
    /// Bit 3.
    pub power3: bool,
    /// Bit 4.
    pub retryfail: bool,
    /// Bit 5.
    pub softfail: bool,
}

impl Status0A {
    pub open spec fn spec_encode(self) -> u8 {
        (b2i(self.hardrst) + 2 * b2i(self.softrst) + 4 * b2i(self.power2) + 8 * b2i(self.power3)
            + 16 * b2i(self.retryfail) + 32 * b2i(self.softfail)) as u8
    }

    pub open spec fn spec_decode(b: u8) -> Status0A {
        Status0A {
            hardrst: b % 2 == 1,
            softrst: (b / 2) % 2 == 1,
            power2: (b / 4) % 2 == 1,
            power3: (b / 8) % 2 == 1,
            retryfail: (b / 16) % 2 == 1,
            softfail: (b / 32) % 2 == 1,
        }
    }

    pub fn encode(&self) -> (r: u8)
        ensures
            r == self.spec_encode(),
            Self::spec_decode(r) == *self,
    {
        proof {
            self.lemma_encode_decode();
        }
        (if self.hardrst {
            1
        } else {
            0
        }) + (if self.softrst {
            2
        } else {
            0
        }) + (if self.power2 {
            4
        } else {
            0
        }) + (if self.power3 {
            8
        } else {
            0
        }) + (if self.retryfail {
            16
        } else {
            0
        }) + (if self.softfail {
            32
        } else {
            0
        })
    }

    pub fn decode(b: u8) -> (r: Status0A)
        ensures
            r == Self::spec_decode(b),
    {
        Status0A {
            hardrst: b % 2 == 1,
            softrst: (b / 2) % 2 == 1,
            power2: (b / 4) % 2 == 1,
            power3: (b / 8) % 2 == 1,
            retryfail: (b / 16) % 2 == 1,
            softfail: (b / 32) % 2 == 1,
        }
    }

    /// Round-trip law for this register.
    pub proof fn lemma_encode_decode(self)
        ensures
            Self::spec_decode(self.spec_encode()) == self,
    {
        lemma_u8_bit_split(
            b2i(self.hardrst),
            b2i(self.softrst),
            b2i(self.power2),
            b2i(self.power3),
            b2i(self.retryfail),
            b2i(self.softfail),
            0,
            0,
        );
    }
}

/// STATUS1A register: received start-of-packet kinds and toggle outcome.
#[derive(Clone, Copy, Debug, PartialEq, Eq, Structural)]
pub struct Status1A {
    /// Bit 0.
    pub rxsop: bool,
    /// Bit 1.
    pub rxsop1db: bool,
    /// Bit 2.
    pub rxsop2db: bool,
    /// Bit 3.
    pub togss1: bool,
    /// Bit 4.
    pub togss2: bool,
    /// Bit 5.
    pub togss3: bool,
}

impl Status1A {
    pub open spec fn spec_encode(self) -> u8 {
        (b2i(self.rxsop) + 2 * b2i(self.rxsop1db) + 4 * b2i(self.rxsop2db) + 8 * b2i(self.togss1)
            + 16 * b2i(self.togss2) + 32 * b2i(self.togss3)) as u8
    }

    pub open spec fn spec_decode(b: u8) -> Status1A {
        Status1A {
            rxsop: b % 2 == 1,
            rxsop1db: (b / 2) % 2 == 1,
            rxsop2db: (b / 4) % 2 == 1,
            togss1: (b / 8) % 2 == 1,
            togss2: (b / 16) % 2 == 1,
            togss3: (b / 32) % 2 == 1,
        }
    }

    pub fn encode(&self) -> (r: u8)
        ensures
            r == self.spec_encode(),
            Self::spec_decode(r) == *self,
    {
        proof {
            self.lemma_encode_decode();
        }
        (if self.rxsop {
            1
        } else {
            0
        }) + (if self.rxsop1db {
            2
        } else {
            0
        }) + (if self.rxsop2db {
            4
        } else {
            0
        }) + (if self.togss1 {
            8
        } else {
            0
        }) + (if self.togss2 {
            16
        } else {
            0
        }) + (if self.togss3 {
            32
        } else {
            0
        })
    }

    pub fn decode(b: u8) -> (r: Status1A)
        ensures
            r == Self::spec_decode(b),
    {
        Status1A {
            rxsop: b % 2 == 1,
            rxsop1db: (b / 2) % 2 == 1,
            rxsop2db: (b / 4) % 2 == 1,
            togss1: (b / 8) % 2 == 1,
            togss2: (b / 16) % 2 == 1,
            togss3: (b / 32) % 2 == 1,
        }
    }

    /// Round-trip law for this register.
    pub proof fn lemma_encode_decode(self)
        ensures
            Self::spec_decode(self.spec_encode()) == self,
    {
        lemma_u8_bit_split(
            b2i(self.rxsop),
            b2i(self.rxsop1db),
            b2i(self.rxsop2db),
            b2i(self.togss1),
            b2i(self.togss2),
            b2i(self.togss3),
            0,
            0,
        );
    }
}

/// INTERRUPTA register: secondary interrupt flags; the chip clears them on
/// read.
#[derive(Clone, Copy, Debug, PartialEq, Eq, Structural)]
pub struct InterruptA {
    /// Bit 0.
    pub i_hardrst: bool,
    /// Bit 1.
    pub i_softrst: bool,
    /// Bit 2.
    pub i_txsent: bool,
    /// Bit 3.
    pub i_hardsent: bool,
    /// Bit 4.
    pub i_retryfail: bool,
    /// Bit 5.
    pub i_softfail: bool,
    /// Bit 6.
    pub i_togdone: bool,
    /// Bit 7.
    pub i_ocp_temp: bool,
}

impl InterruptA {
    pub open spec fn spec_encode(self) -> u8 {
        (b2i(self.i_hardrst) + 2 * b2i(self.i_softrst) + 4 * b2i(self.i_txsent) + 8 * b2i(
            self.i_hardsent,
        ) + 16 * b2i(self.i_retryfail) + 32 * b2i(self.i_softfail) + 64 * b2i(self.i_togdone) + 128
            * b2i(self.i_ocp_temp)) as u8
    }

    pub open spec fn spec_decode(b: u8) -> InterruptA {
        InterruptA {
            i_hardrst: b % 2 == 1,
            i_softrst: (b / 2) % 2 == 1,
            i_txsent: (b / 4) % 2 == 1,
            i_hardsent: (b / 8) % 2 == 1,
            i_retryfail: (b / 16) % 2 == 1,
            i_softfail: (b / 32) % 2 == 1,
            i_togdone: (b / 64) % 2 == 1,
            i_ocp_temp: b / 128 == 1,
        }
    }

    pub fn encode(&self) -> (r: u8)
        ensures
            r == self.spec_encode(),
            Self::spec_decode(r) == *self,
    {
        proof {
            self.lemma_encode_decode();
        }
        (if self.i_hardrst {
            1
        } else {
            0
        }) + (if self.i_softrst {
            2
        } else {
            0
        }) + (if self.i_txsent {
            4
        } else {
            0
        }) + (if self.i_hardsent {
            8
        } else {
            0
        }) + (if self.i_retryfail {
            16
        } else {
            0
        }) + (if self.i_softfail {
            32
        } else {
            0
        }) + (if self.i_togdone {
            64
        } else {
            0
        }) + (if self.i_ocp_temp {
            128
        } else {
            0
        })
    }

    pub fn decode(b: u8) -> (r: InterruptA)
        ensures
            r == Self::spec_decode(b),
    {
        InterruptA {
            i_hardrst: b % 2 == 1,
            i_softrst: (b / 2) % 2 == 1,
            i_txsent: (b / 4) % 2 == 1,
            i_hardsent: (b / 8) % 2 == 1,
            i_retryfail: (b / 16) % 2 == 1,
            i_softfail: (b / 32) % 2 == 1,
            i_togdone: (b / 64) % 2 == 1,
            i_ocp_temp: b / 128 == 1,
        }
    }

    /// Round-trip law for this register.
    pub proof fn lemma_encode_decode(self)
        ensures
            Self::spec_decode(self.spec_encode()) == self,
    {
        lemma_u8_bit_split(
            b2i(self.i_hardrst),
            b2i(self.i_softrst),
            b2i(self.i_txsent),
            b2i(self.i_hardsent),
            b2i(self.i_retryfail),
            b2i(self.i_softfail),
            b2i(self.i_togdone),
            b2i(self.i_ocp_temp),
        );
    }
}

/// INTERRUPTB register: the good-CRC-sent interrupt flag.
#[derive(Clone, Copy, Debug, PartialEq, Eq, Structural)]
pub struct InterruptB {
    /// Bit 0.
    pub i_gcrcsent: bool,
}

impl InterruptB {
    pub open spec fn spec_encode(self) -> u8 {
        b2i(self.i_gcrcsent) as u8
    }

    pub open spec fn spec_decode(b: u8) -> InterruptB {
        InterruptB { i_gcrcsent: b % 2 == 1 }
    }

    pub fn encode(&self) -> (r: u8)
        ensures
            r == self.spec_encode(),
            Self::spec_decode(r) == *self,
    {
        if self.i_gcrcsent {
            1
        } else {
            0
        }
    }

    pub fn decode(b: u8) -> (r: InterruptB)
        ensures
            r == Self::spec_decode(b),
    {
        InterruptB { i_gcrcsent: b % 2 == 1 }
    }

    /// Round-trip law for this register.
    pub proof fn lemma_encode_decode(self)
        ensures
            Self::spec_decode(self.spec_encode()) == self,
    {
    }
}

/// STATUS0 register: comparator level, CRC check and VBUS presence.
#[derive(Clone, Copy, Debug, PartialEq, Eq, Structural)]
pub struct Status0 {
    /// Bits 0..2.
    pub bc_lvl: u8,
    /// Bit 2.
    pub wake: bool,
    /// Bit 3.
    pub alert: bool,
    /// Bit 4.
    pub crc_chk: bool,
    /// Bit 5.
    pub comp: bool,
    /// Bit 6.
    pub activity: bool,
    /// Bit 7.
    pub vbusok: bool,
}

impl Status0 {
    pub open spec fn wf(self) -> bool {
        self.bc_lvl < 4
    }

    pub open spec fn spec_encode(self) -> u8
        recommends
            self.wf(),
    {
        (self.bc_lvl as int + 4 * b2i(self.wake) + 8 * b2i(self.alert) + 16 * b2i(self.crc_chk)
            + 32 * b2i(self.comp) + 64 * b2i(self.activity) + 128 * b2i(self.vbusok)) as u8
    }

    pub open spec fn spec_decode(b: u8) -> Status0 {
        Status0 {
            bc_lvl: (b % 4) as u8,
            wake: (b / 4) % 2 == 1,
            alert: (b / 8) % 2 == 1,
            crc_chk: (b / 16) % 2 == 1,
            comp: (b / 32) % 2 == 1,
            activity: (b / 64) % 2 == 1,
            vbusok: b / 128 == 1,
        }
    }

    pub fn encode(&self) -> (r: u8)
        requires
            self.wf(),
        ensures
            r == self.spec_encode(),
            Self::spec_decode(r) == *self,
    {
        proof {
            self.lemma_encode_decode();
        }
        self.bc_lvl + (if self.wake {
            4
        } else {
            0
        }) + (if self.alert {
            8
        } else {
            0
        }) + (if self.crc_chk {
            16
        } else {
            0
        }) + (if self.comp {
            32
        } else {
            0
        }) + (if self.activity {
            64
        } else {
            0
        }) + (if self.vbusok {
            128
        } else {
            0
        })
    }

    pub fn decode(b: u8) -> (r: Status0)
        ensures
            r == Self::spec_decode(b),
            r.wf(),
    {
        Status0 {
            bc_lvl: (b % 4) as u8,
            wake: (b / 4) % 2 == 1,
            alert: (b / 8) % 2 == 1,
            crc_chk: (b / 16) % 2 == 1,
            comp: (b / 32) % 2 == 1,
            activity: (b / 64) % 2 == 1,
            vbusok: b / 128 == 1,
        }
    }

    /// Round-trip law for this register.
    pub proof fn lemma_encode_decode(self)
        requires
            self.wf(),
        ensures
            Self::spec_decode(self.spec_encode()) == self,
    {
        let bc = self.bc_lvl as int;
        let wk = b2i(self.wake);
        let al = b2i(self.alert);
        let cc = b2i(self.crc_chk);
        let cp = b2i(self.comp);
        let ac = b2i(self.activity);
        let vb = b2i(self.vbusok);
        lemma_field_split(bc, wk + 2 * al + 4 * cc + 8 * cp + 16 * ac + 32 * vb, 4);
        lemma_field_split(bc + 4 * wk, al + 2 * cc + 4 * cp + 8 * ac + 16 * vb, 8);
        lemma_field_split(bc + 4 * wk + 8 * al, cc + 2 * cp + 4 * ac + 8 * vb, 16);
        lemma_field_split(bc + 4 * wk + 8 * al + 16 * cc, cp + 2 * ac + 4 * vb, 32);
        lemma_field_split(bc + 4 * wk + 8 * al + 16 * cc + 32 * cp, ac + 2 * vb, 64);
        lemma_field_split(bc + 4 * wk + 8 * al + 16 * cc + 32 * cp + 64 * ac, vb, 128);
        lemma_field_split(wk, al + 2 * cc + 4 * cp + 8 * ac + 16 * vb, 2);
        lemma_field_split(al, cc + 2 * cp + 4 * ac + 8 * vb, 2);
        lemma_field_split(cc, cp + 2 * ac + 4 * vb, 2);
        lemma_field_split(cp, ac + 2 * vb, 2);
        lemma_field_split(ac, vb, 2);
    }
}

/// STATUS1 register: FIFO fill levels and thermal state.
#[derive(Clone, Copy, Debug, PartialEq, Eq, Structural)]
pub struct Status1 {
    /// Bit 0.
    pub ocp: bool,
    /// Bit 1.
    pub overtemp: bool,
    /// Bit 2.
    pub tx_full: bool,
    /// Bit 3.
    pub tx_empty: bool,
    /// Bit 4.
    pub rx_full: bool,
    /// Bit 5.
    pub rx_empty: bool,
    /// Bit 6.
    pub rxsop1: bool,
    /// Bit 7.
    pub rxsop2: bool,
}

impl Status1 {
    pub open spec fn spec_encode(self) -> u8 {
        (b2i(self.ocp) + 2 * b2i(self.overtemp) + 4 * b2i(self.tx_full) + 8 * b2i(self.tx_empty)
            + 16 * b2i(self.rx_full) + 32 * b2i(self.rx_empty) + 64 * b2i(self.rxsop1) + 128 * b2i(
            self.rxsop2,
        )) as u8
    }

    pub open spec fn spec_decode(b: u8) -> Status1 {
        Status1 {
            ocp: b % 2 == 1,
            overtemp: (b / 2) % 2 == 1,
            tx_full: (b / 4) % 2 == 1,
            tx_empty: (b / 8) % 2 == 1,
            rx_full: (b / 16) % 2 == 1,
            rx_empty: (b / 32) % 2 == 1,
            rxsop1: (b / 64) % 2 == 1,
            rxsop2: b / 128 == 1,
        }
    }

    pub fn encode(&self) -> (r: u8)
        ensures
            r == self.spec_encode(),
            Self::spec_decode(r) == *self,
    {
        proof {
            self.lemma_encode_decode();
        }
        (if self.ocp {
            1
        } else {
            0
        }) + (if self.overtemp {
            2
        } else {
            0
        }) + (if self.tx_full {
            4
        } else {
            0
        }) + (if self.tx_empty {
            8
        } else {
            0
        }) + (if self.rx_full {
            16
        } else {
            0
        }) + (if self.rx_empty {
            32
        } else {
            0
        }) + (if self.rxsop1 {
            64
        } else {
            0
        }) + (if self.rxsop2 {
            128
        } else {
            0
        })
    }

    pub fn decode(b: u8) -> (r: Status1)
        ensures
            r == Self::spec_decode(b),
    {
        Status1 {
            ocp: b % 2 == 1,
            overtemp: (b / 2) % 2 == 1,
            tx_full: (b / 4) % 2 == 1,
            tx_empty: (b / 8) % 2 == 1,
            rx_full: (b / 16) % 2 == 1,
            rx_empty: (b / 32) % 2 == 1,
            rxsop1: (b / 64) % 2 == 1,
            rxsop2: b / 128 == 1,
        }
    }

    /// Round-trip law for this register.
    pub proof fn lemma_encode_decode(self)
        ensures
            Self::spec_decode(self.spec_encode()) == self,
    {
        lemma_u8_bit_split(
            b2i(self.ocp),
            b2i(self.overtemp),
            b2i(self.tx_full),
            b2i(self.tx_empty),
            b2i(self.rx_full),
            b2i(self.rx_empty),
            b2i(self.rxsop1),
            b2i(self.rxsop2),
        );
    }
}

/// INTERRUPT register: primary interrupt flags; the chip clears them on
/// read.
#[derive(Clone, Copy, Debug, PartialEq, Eq, Structural)]
pub struct Interrupt {
    /// Bit 0.
    pub i_bc_lvl: bool,
    /// Bit 1.
    pub i_collision: bool,
    /// Bit 2.
    pub i_wake: bool,
    /// Bit 3.
    pub i_alert: bool,
    /// Bit 4.
    pub i_crc_chk: bool,
    /// Bit 5.
    pub i_comp_chng: bool,
    /// Bit 6.
    pub i_activity: bool,
    /// Bit 7.
    pub i_vbusok: bool,
}

impl Interrupt {
    pub open spec fn spec_encode(self) -> u8 {
        (b2i(self.i_bc_lvl) + 2 * b2i(self.i_collision) + 4 * b2i(self.i_wake) + 8 * b2i(
            self.i_alert,
        ) + 16 * b2i(self.i_crc_chk) + 32 * b2i(self.i_comp_chng) + 64 * b2i(self.i_activity) + 128
            * b2i(self.i_vbusok)) as u8
    }

    pub open spec fn spec_decode(b: u8) -> Interrupt {
        Interrupt {
            i_bc_lvl: b % 2 == 1,
            i_collision: (b / 2) % 2 == 1,
            i_wake: (b / 4) % 2 == 1,
            i_alert: (b / 8) % 2 == 1,
            i_crc_chk: (b / 16) % 2 == 1,
            i_comp_chng: (b / 32) % 2 == 1,
            i_activity: (b / 64) % 2 == 1,
            i_vbusok: b / 128 == 1,
        }
    }

    pub fn encode(&self) -> (r: u8)
        ensures
            r == self.spec_encode(),
            Self::spec_decode(r) == *self,
    {
        proof {
            self.lemma_encode_decode();
        }
        (if self.i_bc_lvl {
            1
        } else {
            0
        }) + (if self.i_collision {
            2
        } else {
            0
        }) + (if self.i_wake {
            4
        } else {
            0
        }) + (if self.i_alert {
            8
        } else {
            0
        }) + (if self.i_crc_chk {
            16
        } else {
            0
        }) + (if self.i_comp_chng {
            32
        } else {
            0
        }) + (if self.i_activity {
            64
        } else {
            0
        }) + (if self.i_vbusok {
            128
        } else {
            0
        })
    }

    pub fn decode(b: u8) -> (r: Interrupt)
        ensures
            r == Self::spec_decode(b),
    {
        Interrupt {
            i_bc_lvl: b % 2 == 1,
            i_collision: (b / 2) % 2 == 1,
            i_wake: (b / 4) % 2 == 1,
            i_alert: (b / 8) % 2 == 1,
            i_crc_chk: (b / 16) % 2 == 1,
            i_comp_chng: (b / 32) % 2 == 1,
            i_activity: (b / 64) % 2 == 1,
            i_vbusok: b / 128 == 1,
        }
    }

    /// Round-trip law for this register.
    pub proof fn lemma_encode_decode(self)
        ensures
            Self::spec_decode(self.spec_encode()) == self,
    {
        lemma_u8_bit_split(
            b2i(self.i_bc_lvl),
            b2i(self.i_collision),
            b2i(self.i_wake),
            b2i(self.i_alert),
            b2i(self.i_crc_chk),
            b2i(self.i_comp_chng),
            b2i(self.i_activity),
            b2i(self.i_vbusok),
        );
    }
}

/// Snapshot of the seven status and interrupt registers, read in one burst
/// starting at STATUS0A.  Interrupt bits self-clear on read, so a snapshot
/// is transient and is replaced wholesale every poll.
#[derive(Clone, Copy, Debug, PartialEq, Eq, Structural)]
pub struct Status {
    pub status_0a: Status0A,
    pub status_1a: Status1A,
    pub interrupt_a: InterruptA,
    pub interrupt_b: InterruptB,
    pub status_0: Status0,
    pub status_1: Status1,
    pub interrupt: Interrupt,
}

impl Status {
    /// The snapshot with every flag clear.
    pub open spec fn spec_default() -> Status {
        Status {
            status_0a: Status0A::spec_decode(0),
            status_1a: Status1A::spec_decode(0),
            interrupt_a: InterruptA::spec_decode(0),
            interrupt_b: InterruptB::spec_decode(0),
            status_0: Status0::spec_decode(0),
            status_1: Status1::spec_decode(0),
            interrupt: Interrupt::spec_decode(0),
        }
    }

    /// The snapshot decoded from a seven-byte burst read.
    pub open spec fn spec_from_bytes(d: Seq<u8>) -> Status
        recommends
            d.len() == 7,
    {
        Status {
            status_0a: Status0A::spec_decode(d[0]),
            status_1a: Status1A::spec_decode(d[1]),
            interrupt_a: InterruptA::spec_decode(d[2]),
            interrupt_b: InterruptB::spec_decode(d[3]),
            status_0: Status0::spec_decode(d[4]),
            status_1: Status1::spec_decode(d[5]),
            interrupt: Interrupt::spec_decode(d[6]),
        }
    }

    pub fn from_bytes(d: &[u8]) -> (r: Status)
        requires
            d@.len() == 7,
        ensures
            r == Self::spec_from_bytes(d@),
            r.status_0.wf(),
    {
        Status {
            status_0a: Status0A::decode(d[0]),
            status_1a: Status1A::decode(d[1]),
            interrupt_a: InterruptA::decode(d[2]),
            interrupt_b: InterruptB::decode(d[3]),
            status_0: Status0::decode(d[4]),
            status_1: Status1::decode(d[5]),
            interrupt: Interrupt::decode(d[6]),
        }
    }
}

impl Default for Status {
    fn default() -> (r: Status)
        ensures
            r == Status::spec_default(),
    {
        Status {
            status_0a: Status0A::decode(0),
            status_1a: Status1A::decode(0),
            interrupt_a: InterruptA::decode(0),
            interrupt_b: InterruptB::decode(0),
            status_0: Status0::decode(0),
            status_1: Status1::decode(0),
            interrupt: Interrupt::decode(0),
        }
    }
}

/// Kind of a token pulled from the receive FIFO, carried in the top three
/// bits of the token byte.  The 3-bit domain is fully enumerated, so every
/// byte maps onto a definite kind: there is no invalid state for this field.
#[derive(Clone, Copy, Debug, PartialEq, Eq, Structural)]
pub enum RxTokenType {
    Reserved0,
    Reserved1,
    Reserved2,
    Sop2Db,
    Sop1Db,
    Sop2,
    Sop1,
    Sop,
}

impl RxTokenType {
    /// The token kind encoded by a 3-bit code.
    pub open spec fn spec_from_u8(v: u8) -> RxTokenType {
        let t = v % 8;
        if t == 0 {
            RxTokenType::Reserved0
        } else if t == 1 {
            RxTokenType::Reserved1
        } else if t == 2 {
            RxTokenType::Reserved2
        } else if t == 3 {
            RxTokenType::Sop2Db
        } else if t == 4 {
            RxTokenType::Sop1Db
        } else if t == 5 {
            RxTokenType::Sop2
        } else if t == 6 {
            RxTokenType::Sop1
        } else {
            RxTokenType::Sop
        }
    }

    /// Total mapping from the low three bits of a byte onto a token kind.
    pub fn from_u8(v: u8) -> (r: RxTokenType)
        ensures
            r == Self::spec_from_u8(v),
    {
        match v % 8 {
            0 => RxTokenType::Reserved0,
            1 => RxTokenType::Reserved1,
            2 => RxTokenType::Reserved2,
            3 => RxTokenType::Sop2Db,
            4 => RxTokenType::Sop1Db,
            5 => RxTokenType::Sop2,
            6 => RxTokenType::Sop1,
            _ => RxTokenType::Sop,
        }
    }

    /// The 3-bit code of this token kind.
    pub open spec fn spec_value(self) -> u8 {
        match self {
            RxTokenType::Reserved0 => 0,
            RxTokenType::Reserved1 => 1,
            RxTokenType::Reserved2 => 2,
            RxTokenType::Sop2Db => 3,
            RxTokenType::Sop1Db => 4,
            RxTokenType::Sop2 => 5,
            RxTokenType::Sop1 => 6,
            RxTokenType::Sop => 7,
        }
    }

    pub fn value(self) -> (r: u8)
        ensures
            r == self.spec_value(),
    {
        match self {
            RxTokenType::Reserved0 => 0,
            RxTokenType::Reserved1 => 1,
            RxTokenType::Reserved2 => 2,
            RxTokenType::Sop2Db => 3,
            RxTokenType::Sop1Db => 4,
            RxTokenType::Sop2 => 5,
            RxTokenType::Sop1 => 6,
            RxTokenType::Sop => 7,
        }
    }
}

/// A token byte read from the receive FIFO: the kind lives in bits 5..8,
/// the low five bits are reserved and ignored.
#[derive(Clone, Copy, Debug, PartialEq, Eq, Structural)]
pub struct RxToken {
    pub token: RxTokenType,
}

impl RxToken {
    pub open spec fn spec_decode(b: u8) -> RxToken {
        RxToken { token: RxTokenType::spec_from_u8((b / 32) as u8) }
    }

    pub fn decode(b: u8) -> (r: RxToken)
        ensures
            r == Self::spec_decode(b),
    {
        RxToken { token: RxTokenType::from_u8(b / 32) }
    }
}

/// Tokens written to the transmit FIFO to frame an outgoing packet.
#[derive(Clone, Copy, Debug, PartialEq, Eq, Structural)]
pub enum TxToken {
    Sop1,
    Sop2,
    Eop,
    Reset1,
    Reset2,
    Sop3,
    PackSym,
    TxOn,
    TxOff,
    JamCrc,
}

impl TxToken {
    /// The byte written to the FIFO for this token.
    pub open spec fn spec_value(self) -> u8 {
        match self {
            TxToken::Sop1 => 0x12,
            TxToken::Sop2 => 0x13,
            TxToken::Eop => 0x14,
            TxToken::Reset1 => 0x15,
            TxToken::Reset2 => 0x16,
            TxToken::Sop3 => 0x1b,
            TxToken::PackSym => 0x80,
            TxToken::TxOn => 0xa1,
            TxToken::TxOff => 0xfe,
            TxToken::JamCrc => 0xff,
        }
    }

    pub fn value(self) -> (r: u8)
        ensures
            r == self.spec_value(),
    {
        match self {
            TxToken::Sop1 => 0x12,
            TxToken::Sop2 => 0x13,
            TxToken::Eop => 0x14,
            TxToken::Reset1 => 0x15,
            TxToken::Reset2 => 0x16,
            TxToken::Sop3 => 0x1b,
            TxToken::PackSym => 0x80,
            TxToken::TxOn => 0xa1,
            TxToken::TxOff => 0xfe,
            TxToken::JamCrc => 0xff,
        }
    }
}

/// Capacity of the transmit buffer: the FIFO register address, a two-byte
/// header and up to seven 4-byte data objects.
pub const MESSAGE_BUFFER_SIZE: usize = 1 + 2 + 7 * 4;

/// Fixed-capacity staging buffer for one outgoing message.  The first byte
/// is the FIFO register address, bytes 1..3 hold the header, and data
/// objects follow; `len` counts the bytes staged so far.
#[derive(Debug)]
pub struct Fusb302MessageBuffer {
    pub buffer: Vec<u8>,
    pub len: usize,
}

impl Fusb302MessageBuffer {
    /// The buffer always spans the full capacity, starts with the FIFO
    /// register address, and has staged at least the address and header.
    pub open spec fn wf(self) -> bool {
        &&& self.buffer@.len() == MESSAGE_BUFFER_SIZE
        &&& 3 <= self.len <= MESSAGE_BUFFER_SIZE
        &&& self.buffer@[0] == Fusb302Register::Fifos.spec_addr()
    }

    /// An empty message: register address staged, header bytes reserved.
    pub fn new() -> (r: Fusb302MessageBuffer)
        ensures
            r.wf(),
            r.len == 3,
            r.buffer@[0] == Fusb302Register::Fifos.spec_addr(),
            forall|i: int| 1 <= i < MESSAGE_BUFFER_SIZE ==> r.buffer@[i] == 0,
    {
        let mut buffer: Vec<u8> = Vec::new();
        buffer.push(Fusb302Register::Fifos.addr());
        let mut i: usize = 1;
        while i < MESSAGE_BUFFER_SIZE
            invariant
                1 <= i <= MESSAGE_BUFFER_SIZE,
                buffer@.len() == i,
                buffer@[0] == Fusb302Register::Fifos.spec_addr(),
                forall|j: int| 1 <= j < i ==> buffer@[j] == 0,
            decreases MESSAGE_BUFFER_SIZE - i,
        {
            buffer.push(0);
            i = i + 1;
        }
        Fusb302MessageBuffer { buffer, len: 3 }
    }

    /// Stages the header in little-endian order at bytes 1..3.
    pub fn write_header(&mut self, header: u16)
        requires
            old(self).wf(),
        ensures
            final(self).wf(),
            final(self).len == old(self).len,
            final(self).buffer@ == old(self).buffer@.update(1, (header % 256) as u8).update(
                2,
                (header / 256) as u8,
            ),
    {
        self.buffer[1] = (header % 256) as u8;
        self.buffer[2] = (header / 256) as u8;
    }

    /// Stages one 4-byte data object in little-endian order.  Fails with a
    /// capacity error, leaving the buffer untouched, when the staged length
    /// would exceed the fixed capacity.
    pub fn write_data(&mut self, object: u32) -> (r: Result<(), Error>)
        requires
            old(self).wf(),
        ensures
            final(self).wf(),
            old(self).len + 4 > MESSAGE_BUFFER_SIZE ==> r == Err::<(), Error>(Error::Index)
                && *final(self) == *old(self),
            old(self).len + 4 <= MESSAGE_BUFFER_SIZE ==> {
                &&& r == Ok::<(), Error>(())
                &&& final(self).len == old(self).len + 4
                &&& final(self).buffer@ == old(self).buffer@.update(
                    old(self).len as int,
                    (object % 256) as u8,
                ).update(old(self).len + 1, ((object / 256) % 256) as u8).update(
                    old(self).len + 2,
                    ((object / 65536) % 256) as u8,
                ).update(old(self).len + 3, (object / 16777216) as u8)
            },
    {
        if self.len + 4 > MESSAGE_BUFFER_SIZE {
            return Err(Error::Index);
        }
        self.buffer[self.len] = (object % 256) as u8;
        self.buffer[self.len + 1] = ((object / 256) % 256) as u8;
        self.buffer[self.len + 2] = ((object / 65536) % 256) as u8;
        self.buffer[self.len + 3] = (object / 16777216) as u8;
        self.len = self.len + 4;
        Ok(())
    }

    /// The FIFO write that precedes the message bytes: three SOP1 tokens,
    /// one SOP2 token, and a pack token carrying the message length.
    pub fn sop_sequence(&self) -> (r: Vec<u8>)
        requires
            self.wf(),
        ensures
            r@ == seq![
                Fusb302Register::Fifos.spec_addr(),
                TxToken::Sop1.spec_value(),
                TxToken::Sop1.spec_value(),
                TxToken::Sop1.spec_value(),
                TxToken::Sop2.spec_value(),
                (TxToken::PackSym.spec_value() + (self.len - 1)) as u8,
            ],
    {
        let mut r: Vec<u8> = Vec::new();
        r.push(Fusb302Register::Fifos.addr());
        r.push(TxToken::Sop1.value());
        r.push(TxToken::Sop1.value());
        r.push(TxToken::Sop1.value());
        r.push(TxToken::Sop2.value());
        r.push(TxToken::PackSym.value() + (self.len as u8 - 1));
        proof {
            assert(r@ =~= seq![
                Fusb302Register::Fifos.spec_addr(),
                TxToken::Sop1.spec_value(),
                TxToken::Sop1.spec_value(),
                TxToken::Sop1.spec_value(),
                TxToken::Sop2.spec_value(),
                (TxToken::PackSym.spec_value() + (self.len - 1)) as u8,
            ]);
        }
        r
    }

    /// The staged message bytes: register address, header, data objects.
    pub fn message_bytes(&self) -> (r: Vec<u8>)
        requires
            self.wf(),
        ensures
            r@ == self.buffer@.subrange(0, self.len as int),
    {
        let mut r: Vec<u8> = Vec::new();
        let mut i: usize = 0;
        while i < self.len
            invariant
                i <= self.len,
                self.wf(),
                r@ =~= self.buffer@.subrange(0, i as int),
            decreases self.len - i,
        {
            r.push(self.buffer[i]);
            i = i + 1;
        }
        proof {
            assert(r@ =~= self.buffer@.subrange(0, self.len as int));
        }
        r
    }

    /// The FIFO write that follows the message bytes: CRC request,
    /// end-of-packet token, transmitter off, transmitter on.
    pub fn eop_sequence() -> (r: Vec<u8>)
        ensures
            r@ == seq![
                Fusb302Register::Fifos.spec_addr(),
                TxToken::JamCrc.spec_value(),
                TxToken::Eop.spec_value(),
                TxToken::TxOff.spec_value(),
                TxToken::TxOn.spec_value(),
            ],
    {
        let mut r: Vec<u8> = Vec::new();
        r.push(Fusb302Register::Fifos.addr());
        r.push(TxToken::JamCrc.value());
        r.push(TxToken::Eop.value());
        r.push(TxToken::TxOff.value());
        r.push(TxToken::TxOn.value());
        proof {
            assert(r@ =~= seq![
                Fusb302Register::Fifos.spec_addr(),
                TxToken::JamCrc.spec_value(),
                TxToken::Eop.spec_value(),
                TxToken::TxOff.spec_value(),
                TxToken::TxOn.spec_value(),
            ]);
        }
        r
    }
}

} // verus!
