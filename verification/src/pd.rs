//! The sink-role protocol engine.
//!
//! The engine owns its session state and decides; the caller performs the
//! bus transactions, delays and interrupt waits.  Each state handler either
//! returns the exact register writes to perform (a plan of `RegWrite`s) or
//! consumes the values the caller read back and updates the session.  The
//! receive path parses a drained FIFO byte stream into messages; the
//! transmit path stages a framed message for the caller to send.

use crate::bits::{le16_value, le32_value, lemma_field_split};
use crate::fusb302::{
    Control0, Control1, Control2, Control3, Fusb302MessageBuffer, Fusb302Register, Mask1, MaskA,
    MaskB, Measure, Power, Reset, RxToken, RxTokenType, Status, Switches0, Switches1,
};
use crate::proto::{DataMessageType, FixedSupplyPdo, FixedVariableSupplyRequest, Header};
use crate::Error;
use vstd::prelude::*;

verus! {

/// Largest message payload: seven 4-byte data objects.
pub const MAX_PAYLOAD_SIZE: usize = 7 * 4;

/// How often the chip identity is polled after a soft reset before the
/// bring-up reports failure.
pub const SETUP_ID_RETRIES: u8 = 5;

/// Settle delay between switching a CC line's measurement on and sampling
/// its comparator level, in milliseconds.
pub const CC_SETTLE_DELAY_MS: u64 = 20;

/// Settle delay before each CC detection attempt, in milliseconds.
pub const CC_POLL_DELAY_MS: u64 = 500;

/// Offers above this voltage, in mV, are never selected.
pub const VOLTAGE_LIMIT_MV: u32 = 18000;

/// One register write for the caller to perform on the bus.
#[derive(Clone, Copy, Debug, PartialEq, Eq, Structural)]
pub struct RegWrite {
    pub reg: Fusb302Register,
    pub value: u8,
}

/// Protocol states of the sink engine.
#[derive(Clone, Copy, Debug, PartialEq, Eq, Structural)]
pub enum PdState {
    Reset,
    WaitForVbus,
    PollCC,
    Online,
}

/// The CC line selected by polarity detection.
#[derive(Clone, Copy, Debug, PartialEq, Eq, Structural)]
pub enum CcLine {
    Cc1,
    Cc2,
}

/// Conditions a status poll asks the caller to act on.
#[derive(Clone, Copy, Debug, PartialEq, Eq, Structural)]
pub struct StatusEvents {
    /// A queued message finished transmitting (log only).
    pub tx_sent: bool,
    /// Automatic retransmission gave up (log only).
    pub retry_fail: bool,
    /// Over-temperature, from the interrupt or the status bit (log only).
    pub over_temp: bool,
    /// The chip acknowledged an incoming packet: drain the receive FIFO.
    pub new_data: bool,
}

/// Session state of the engine: protocol state, the latest status snapshot,
/// the offers from the most recent capabilities message, and the outgoing
/// message-ID counter.
#[derive(Debug)]
pub struct Pd {
    pub state: PdState,
    pub status: Status,
    pub pdos: Vec<FixedSupplyPdo>,
    pub message_id: u8,
}

impl Pd {
    /// The offer list is bounded by the protocol's seven-object limit and
    /// the message-ID counter stays within its 3-bit width.
    pub open spec fn wf(self) -> bool {
        &&& self.message_id < 8
        &&& self.pdos@.len() <= 7
        &&& forall|i: int| 0 <= i < self.pdos@.len() ==> self.pdos@[i].wf()
    }

    /// A fresh session: reset state, clear status, no offers, ID zero.
    pub fn new() -> (r: Pd)
        ensures
            r.wf(),
            r.state == PdState::Reset,
            r.status == Status::spec_default(),
            r.pdos@.len() == 0,
            r.message_id == 0,
    {
        Pd { state: PdState::Reset, status: Status::default(), pdos: Vec::new(), message_id: 0 }
    }

    /// Hands out the message ID for the next transmission and advances the
    /// counter by one modulo 8, wrapping from 7 back to 0.
    pub fn next_message_id(&mut self) -> (id: u8)
        requires
            old(self).wf(),
        ensures
            final(self).wf(),
            id == old(self).message_id,
            final(self).message_id == (old(self).message_id + 1) % 8,
            final(self).state == old(self).state,
            final(self).status == old(self).status,
            final(self).pdos == old(self).pdos,
    {
        let id = self.message_id;
        self.message_id = (self.message_id + 1) % 8;
        id
    }
}

/// Succession of message IDs: the counter after handing out `id` is one
/// greater modulo 8, wrapping from 7 back to 0.
pub proof fn lemma_message_id_succession(id: u8)
    requires
        id < 8,
    ensures
        (id + 1) % 8 == if id == 7 {
            0
        } else {
            id + 1
        },
{
}

/// Validates the identity register: an all-zero or all-one byte means the
/// chip is absent or not yet out of reset.
pub fn check_device_id(val: u8) -> (r: Result<crate::fusb302::DeviceId, Error>)
    ensures
        (val == 0 || val == 0xff) <==> r == Err::<crate::fusb302::DeviceId, Error>(
            Error::InvalidDeviceId,
        ),
        !(val == 0 || val == 0xff) ==> r == Ok::<crate::fusb302::DeviceId, Error>(
            crate::fusb302::DeviceId::spec_decode(val),
        ),
{
    if val == 0 || val == 0xff {
        return Err(Error::InvalidDeviceId);
    }
    Ok(crate::fusb302::DeviceId::decode(val))
}

/// One step of the post-reset identity poll: accept on a valid read, retry
/// while attempts remain, and report a soft-reset failure when the last
/// attempt was used up.  `Ok(true)` means the chip answered.
pub fn id_poll_step(id_ok: bool, retries_left: u8) -> (r: Result<bool, Error>)
    requires
        retries_left >= 1,
    ensures
        id_ok ==> r == Ok::<bool, Error>(true),
        !id_ok && retries_left > 1 ==> r == Ok::<bool, Error>(false),
        !id_ok && retries_left == 1 ==> r == Err::<bool, Error>(Error::SoftResetFailure),
{
    if id_ok {
        Ok(true)
    } else if retries_left > 1 {
        Ok(false)
    } else {
        Err(Error::SoftResetFailure)
    }
}

/// Polarity decision of CC detection: the line with the higher comparator
/// reading carries the connection; equal readings mean no connection.
pub fn cc_polarity(cc1: u8, cc2: u8) -> (r: Result<CcLine, Error>)
    ensures
        cc1 == cc2 <==> r == Err::<CcLine, Error>(Error::NoCcDetected),
        cc1 > cc2 <==> r == Ok::<CcLine, Error>(CcLine::Cc1),
        cc1 < cc2 <==> r == Ok::<CcLine, Error>(CcLine::Cc2),
{
    if cc1 == cc2 {
        Err(Error::NoCcDetected)
    } else if cc1 > cc2 {
        Ok(CcLine::Cc1)
    } else {
        Ok(CcLine::Cc2)
    }
}

/// The receive-FIFO flush write shared by several plans.
pub open spec fn spec_rx_flush_write() -> RegWrite {
    RegWrite {
        reg: Fusb302Register::Control1,
        value: (Control1 {
            ensop1: false,
            ensop2: false,
            rx_flush: true,
            bist_mode2: false,
            ensop1db: false,
            ensop2db: false,
        }).spec_encode(),
    }
}

/// The single write that flushes the receive FIFO.
pub fn flush_rx_fifo_write() -> (w: RegWrite)
    ensures
        w == spec_rx_flush_write(),
{
    RegWrite {
        reg: Fusb302Register::Control1,
        value: Control1 {
            ensop1: false,
            ensop2: false,
            rx_flush: true,
            bist_mode2: false,
            ensop1db: false,
            ensop2db: false,
        }.encode(),
    }
}

/// Protocol-level reset plan: flush the transmit buffer, flush the receive
/// FIFO, then strobe the PD-logic reset.
pub open spec fn spec_fusb_reset_writes() -> Seq<RegWrite> {
    seq![
        RegWrite {
            reg: Fusb302Register::Control0,
            value: (Control0 {
                tx_start: false,
                auto_pre: false,
                host_cur: 1,
                int_mask: false,
                tx_flush: true,
            }).spec_encode(),
        },
        spec_rx_flush_write(),
        RegWrite {
            reg: Fusb302Register::Reset,
            value: (Reset { sw_res: false, pd_reset: true }).spec_encode(),
        },
    ]
}

pub fn fusb_reset_writes() -> (w: Vec<RegWrite>)
    ensures
        w@ == spec_fusb_reset_writes(),
{
    let mut w: Vec<RegWrite> = Vec::new();
    w.push(
        RegWrite {
            reg: Fusb302Register::Control0,
            value: Control0 {
                tx_start: false,
                auto_pre: false,
                host_cur: 1,
                int_mask: false,
                tx_flush: true,
            }.encode(),
        },
    );
    w.push(flush_rx_fifo_write());
    w.push(
        RegWrite {
            reg: Fusb302Register::Reset,
            value: Reset { sw_res: false, pd_reset: true }.encode(),
        },
    );
    proof {
        assert(w@ =~= spec_fusb_reset_writes());
    }
    w
}

/// The chip software reset that opens bring-up; the identity poll follows.
pub open spec fn spec_setup_reset_write() -> RegWrite {
    RegWrite {
        reg: Fusb302Register::Reset,
        value: (Reset { sw_res: true, pd_reset: false }).spec_encode(),
    }
}

pub fn setup_reset_write() -> (w: RegWrite)
    ensures
        w == spec_setup_reset_write(),
{
    RegWrite {
        reg: Fusb302Register::Reset,
        value: Reset { sw_res: true, pd_reset: false }.encode(),
    }
}

/// Bring-up configuration plan, applied once the chip answers with a valid
/// identity: power every rail, unmask all interrupts, advertise the highest
/// host current, enable three automatic packet retries, restore toggle
/// defaults, and flush the receive FIFO.
pub open spec fn spec_setup_config_writes() -> Seq<RegWrite> {
    seq![
        RegWrite {
            reg: Fusb302Register::Power,
            value: (Power { pwr0: true, pwr1: true, pwr2: true, pwr3: true }).spec_encode(),
        },
        RegWrite {
            reg: Fusb302Register::Mask1,
            value: (Mask1 {
                m_bc_lvl: false,
                m_collision: false,
                m_wake: false,
                m_alert: false,
                m_crc_chk: false,
                m_comp_chng: false,
                m_activity: false,
                m_vbusok: false,
            }).spec_encode(),
        },
        RegWrite {
            reg: Fusb302Register::MaskA,
            value: (MaskA {
                m_hardrst: false,
                m_softrst: false,
                m_txsent: false,
                m_hardsent: false,
                m_retryfail: false,
                m_softfail: false,
                m_togdone: false,
                m_ocp_temp: false,
            }).spec_encode(),
        },
        RegWrite {
            reg: Fusb302Register::MaskB,
            value: (MaskB { m_gcrcsent: false }).spec_encode(),
        },
        RegWrite {
            reg: Fusb302Register::Control0,
            value: (Control0 {
                tx_start: false,
                auto_pre: false,
                host_cur: 3,
                int_mask: false,
                tx_flush: false,
            }).spec_encode(),
        },
        RegWrite {
            reg: Fusb302Register::Control3,
            value: (Control3 {
                auto_retry: true,
                n_retries: 3,
                auto_hardreset: false,
                auto_softreset: false,
                bist_t_mode: false,
                send_hard_reset: false,
            }).spec_encode(),
        },
        RegWrite {
            reg: Fusb302Register::Control2,
            value: (Control2 {
                toggle: false,
                mode: 0,
                wake_en: false,
                tog_rd_only: false,
                tog_save_pwr1: false,
                tog_save_pwr2: false,
            }).spec_encode(),
        },
        spec_rx_flush_write(),
    ]
}

pub fn setup_config_writes() -> (w: Vec<RegWrite>)
    ensures
        w@ == spec_setup_config_writes(),
{
    let mut w: Vec<RegWrite> = Vec::new();
    w.push(
        RegWrite {
            reg: Fusb302Register::Power,
            value: Power { pwr0: true, pwr1: true, pwr2: true, pwr3: true }.encode(),
        },
    );
    w.push(
        RegWrite {
            reg: Fusb302Register::Mask1,
            value: Mask1 {
                m_bc_lvl: false,
                m_collision: false,
                m_wake: false,
                m_alert: false,
                m_crc_chk: false,
                m_comp_chng: false,
                m_activity: false,
                m_vbusok: false,
            }.encode(),
        },
    );
    w.push(
        RegWrite {
            reg: Fusb302Register::MaskA,
            value: MaskA {
                m_hardrst: false,
                m_softrst: false,
                m_txsent: false,
                m_hardsent: false,
                m_retryfail: false,
                m_softfail: false,
                m_togdone: false,
                m_ocp_temp: false,
            }.encode(),
        },
    );
    w.push(RegWrite { reg: Fusb302Register::MaskB, value: MaskB { m_gcrcsent: false }.encode() });
    w.push(
        RegWrite {
            reg: Fusb302Register::Control0,
            value: Control0 {
                tx_start: false,
                auto_pre: false,
                host_cur: 3,
                int_mask: false,
                tx_flush: false,
            }.encode(),
        },
    );
    w.push(
        RegWrite {
            reg: Fusb302Register::Control3,
            value: Control3 {
                auto_retry: true,
                n_retries: 3,
                auto_hardreset: false,
                auto_softreset: false,
                bist_t_mode: false,
                send_hard_reset: false,
            }.encode(),
        },
    );
    w.push(
        RegWrite {
            reg: Fusb302Register::Control2,
            value: Control2 {
                toggle: false,
                mode: 0,
                wake_en: false,
                tog_rd_only: false,
                tog_save_pwr1: false,
                tog_save_pwr2: false,
            }.encode(),
        },
    );
    w.push(flush_rx_fifo_write());
    proof {
        assert(w@ =~= spec_setup_config_writes());
    }
    w
}

/// VBUS-wait plan: measure VBUS and enable both CC pulldowns.
pub open spec fn spec_wait_for_vbus_writes() -> Seq<RegWrite> {
    seq![
        RegWrite {
            reg: Fusb302Register::Measure,
            value: (Measure { mdac: 0, meas_vbus: true }).spec_encode(),
        },
        RegWrite {
            reg: Fusb302Register::Switches0,
            value: (Switches0 {
                pdwn1: true,
                pdwn2: true,
                meas_cc1: false,
                meas_cc2: false,
                vconn_cc1: false,
                vconn_cc2: false,
                pu_en1: false,
                pu_en2: false,
            }).spec_encode(),
        },
    ]
}

pub fn wait_for_vbus_writes() -> (w: Vec<RegWrite>)
    ensures
        w@ == spec_wait_for_vbus_writes(),
{
    let mut w: Vec<RegWrite> = Vec::new();
    w.push(
        RegWrite {
            reg: Fusb302Register::Measure,
            value: Measure { mdac: 0, meas_vbus: true }.encode(),
        },
    );
    w.push(
        RegWrite {
            reg: Fusb302Register::Switches0,
            value: Switches0 {
                pdwn1: true,
                pdwn2: true,
                meas_cc1: false,
                meas_cc2: false,
                vconn_cc1: false,
                vconn_cc2: false,
                pu_en1: false,
                pu_en2: false,
            }.encode(),
        },
    );
    proof {
        assert(w@ =~= spec_wait_for_vbus_writes());
    }
    w
}

/// First CC sampling plan: restore the default comparator threshold, then
/// pull both lines down and measure CC1.  A settle delay and a STATUS0 read
/// follow on the bus.
pub open spec fn spec_cc_sample1_writes() -> Seq<RegWrite> {
    seq![
        RegWrite {
            reg: Fusb302Register::Measure,
            value: (Measure { mdac: 0x31, meas_vbus: false }).spec_encode(),
        },
        RegWrite {
            reg: Fusb302Register::Switches0,
            value: (Switches0 {
                pdwn1: true,
                pdwn2: true,
                meas_cc1: true,
                meas_cc2: false,
                vconn_cc1: false,
                vconn_cc2: false,
                pu_en1: false,
                pu_en2: false,
            }).spec_encode(),
        },
    ]
}

pub fn cc_sample1_writes() -> (w: Vec<RegWrite>)
    ensures
        w@ == spec_cc_sample1_writes(),
{
    let mut w: Vec<RegWrite> = Vec::new();
    w.push(
        RegWrite {
            reg: Fusb302Register::Measure,
            value: Measure { mdac: 0x31, meas_vbus: false }.encode(),
        },
    );
    w.push(
        RegWrite {
            reg: Fusb302Register::Switches0,
            value: Switches0 {
                pdwn1: true,
                pdwn2: true,
                meas_cc1: true,
                meas_cc2: false,
                vconn_cc1: false,
                vconn_cc2: false,
                pu_en1: false,
                pu_en2: false,
            }.encode(),
        },
    );
    proof {
        assert(w@ =~= spec_cc_sample1_writes());
    }
    w
}

/// Second CC sampling plan: keep both pulldowns and measure CC2.
pub open spec fn spec_cc_sample2_writes() -> Seq<RegWrite> {
    seq![
        RegWrite {
            reg: Fusb302Register::Switches0,
            value: (Switches0 {
                pdwn1: true,
                pdwn2: true,
                meas_cc1: false,
                meas_cc2: true,
                vconn_cc1: false,
                vconn_cc2: false,
                pu_en1: false,
                pu_en2: false,
            }).spec_encode(),
        },
    ]
}

pub fn cc_sample2_writes() -> (w: Vec<RegWrite>)
    ensures
        w@ == spec_cc_sample2_writes(),
{
    let mut w: Vec<RegWrite> = Vec::new();
    w.push(
        RegWrite {
            reg: Fusb302Register::Switches0,
            value: Switches0 {
                pdwn1: true,
                pdwn2: true,
                meas_cc1: false,
                meas_cc2: true,
                vconn_cc1: false,
                vconn_cc2: false,
                pu_en1: false,
                pu_en2: false,
            }.encode(),
        },
    );
    proof {
        assert(w@ =~= spec_cc_sample2_writes());
    }
    w
}

/// Commit plan for the winning CC line: terminate and keep measuring it,
/// transmit on it with automatic CRC replies at protocol revision 1.0, then
/// flush the receive FIFO again.
pub open spec fn spec_cc_commit_writes(line: CcLine) -> Seq<RegWrite> {
    seq![
        RegWrite {
            reg: Fusb302Register::Switches0,
            value: (Switches0 {
                pdwn1: true,
                pdwn2: true,
                meas_cc1: line == CcLine::Cc1,
                meas_cc2: line == CcLine::Cc2,
                vconn_cc1: false,
                vconn_cc2: false,
                pu_en1: false,
                pu_en2: false,
            }).spec_encode(),
        },
        RegWrite {
            reg: Fusb302Register::Switches1,
            value: (Switches1 {
                txcc1: line == CcLine::Cc1,
                txcc2: line == CcLine::Cc2,
                auto_crc: true,
                data_role: false,
                spec_rev: 0,
                power_role: false,
            }).spec_encode(),
        },
        spec_rx_flush_write(),
    ]
}

pub fn cc_commit_writes(line: CcLine) -> (w: Vec<RegWrite>)
    ensures
        w@ == spec_cc_commit_writes(line),
{
    let use_cc1 = matches!(line, CcLine::Cc1);
    let use_cc2 = matches!(line, CcLine::Cc2);
    let mut w: Vec<RegWrite> = Vec::new();
    w.push(
        RegWrite {
            reg: Fusb302Register::Switches0,
            value: Switches0 {
                pdwn1: true,
                pdwn2: true,
                meas_cc1: use_cc1,
                meas_cc2: use_cc2,
                vconn_cc1: false,
                vconn_cc2: false,
                pu_en1: false,
                pu_en2: false,
            }.encode(),
        },
    );
    w.push(
        RegWrite {
            reg: Fusb302Register::Switches1,
            value: Switches1 {
                txcc1: use_cc1,
                txcc2: use_cc2,
                auto_crc: true,
                data_role: false,
                spec_rev: 0,
                power_role: false,
            }.encode(),
        },
    );
    w.push(flush_rx_fifo_write());
    proof {
        assert(w@ =~= spec_cc_commit_writes(line));
    }
    w
}

impl Pd {
    /// Replaces the status snapshot with a fresh seven-byte burst read and
    /// reports which conditions the caller must act on.  The snapshot is
    /// never diffed against the old one: the chip's interrupt bits
    /// self-clear on read, so edge detection is the chip's.
    pub fn poll_status(&mut self, raw: &[u8]) -> (ev: StatusEvents)
        requires
            old(self).wf(),
            raw@.len() == 7,
        ensures
            final(self).wf(),
            final(self).status == Status::spec_from_bytes(raw@),
            final(self).state == old(self).state,
            final(self).pdos == old(self).pdos,
            final(self).message_id == old(self).message_id,
            ev.tx_sent == final(self).status.interrupt_a.i_txsent,
            ev.retry_fail == final(self).status.interrupt_a.i_retryfail,
            ev.over_temp == (final(self).status.interrupt_a.i_ocp_temp
                || final(self).status.status_1.overtemp),
            ev.new_data == final(self).status.interrupt_b.i_gcrcsent,
    {
        self.status = Status::from_bytes(raw);
        StatusEvents {
            tx_sent: self.status.interrupt_a.i_txsent,
            retry_fail: self.status.interrupt_a.i_retryfail,
            over_temp: self.status.interrupt_a.i_ocp_temp || self.status.status_1.overtemp,
            new_data: self.status.interrupt_b.i_gcrcsent,
        }
    }

    /// Outcome of a bring-up attempt in the reset state: on success the
    /// engine waits for VBUS, on failure it stays in reset for the next
    /// tick.
    pub fn handle_reset_result(&mut self, setup_ok: bool)
        requires
            old(self).wf(),
            old(self).state == PdState::Reset,
        ensures
            final(self).wf(),
            final(self).state == if setup_ok {
                PdState::WaitForVbus
            } else {
                PdState::Reset
            },
            final(self).status == old(self).status,
            final(self).pdos == old(self).pdos,
            final(self).message_id == old(self).message_id,
    {
        if setup_ok {
            self.state = PdState::WaitForVbus;
        }
    }

    /// Checks the latest snapshot for VBUS while waiting for it; once the
    /// VBUS-ok bit is set the engine moves on to CC polling.  Returns
    /// whether it advanced; on `false` the caller blocks until the next
    /// interrupt, polls status again and re-checks.
    pub fn handle_vbus_check(&mut self) -> (advanced: bool)
        requires
            old(self).wf(),
            old(self).state == PdState::WaitForVbus,
        ensures
            final(self).wf(),
            advanced == old(self).status.status_0.vbusok,
            final(self).state == if advanced {
                PdState::PollCC
            } else {
                PdState::WaitForVbus
            },
            final(self).status == old(self).status,
            final(self).pdos == old(self).pdos,
            final(self).message_id == old(self).message_id,
    {
        if self.status.status_0.vbusok {
            self.state = PdState::PollCC;
            true
        } else {
            false
        }
    }

    /// Outcome of a CC-detection attempt: on success (detection committed
    /// and the protocol-level reset performed) the engine goes online; on
    /// failure it stays polling for the next tick.
    pub fn handle_poll_cc_result(&mut self, detected: bool)
        requires
            old(self).wf(),
            old(self).state == PdState::PollCC,
        ensures
            final(self).wf(),
            final(self).state == if detected {
                PdState::Online
            } else {
                PdState::PollCC
            },
            final(self).status == old(self).status,
            final(self).pdos == old(self).pdos,
            final(self).message_id == old(self).message_id,
    {
        if detected {
            self.state = PdState::Online;
        }
    }

    /// Online check after each status poll: losing VBUS sends the engine
    /// back to reset.
    pub fn handle_online_status(&mut self)
        requires
            old(self).wf(),
            old(self).state == PdState::Online,
        ensures
            final(self).wf(),
            final(self).state == if old(self).status.status_0.vbusok {
                PdState::Online
            } else {
                PdState::Reset
            },
            final(self).status == old(self).status,
            final(self).pdos == old(self).pdos,
            final(self).message_id == old(self).message_id,
    {
        if !self.status.status_0.vbusok {
            self.state = PdState::Reset;
        }
    }
}

/// The offers carried by a capabilities payload: one fixed-supply object per
/// 4-byte little-endian group.
pub open spec fn spec_decode_pdos(payload: Seq<u8>) -> Seq<FixedSupplyPdo>
    recommends
        payload.len() % 4 == 0,
{
    Seq::new(
        (payload.len() / 4) as nat,
        |i: int|
            FixedSupplyPdo::spec_decode(
                le32_value(payload[4 * i], payload[4 * i + 1], payload[4 * i + 2], payload[4 * i + 3]),
            ),
    )
}

/// Decodes a capabilities payload into its list of power offers.
pub fn decode_pdos(payload: &[u8]) -> (r: Vec<FixedSupplyPdo>)
    requires
        payload@.len() % 4 == 0,
        payload@.len() <= MAX_PAYLOAD_SIZE,
    ensures
        r@ == spec_decode_pdos(payload@),
        r@.len() == payload@.len() / 4,
        forall|i: int| 0 <= i < r@.len() ==> r@[i].wf(),
{
    let n = payload.len() / 4;
    let mut r: Vec<FixedSupplyPdo> = Vec::new();
    let mut i: usize = 0;
    while i < n
        invariant
            i <= n,
            n == payload@.len() / 4,
            payload@.len() % 4 == 0,
            payload@.len() <= MAX_PAYLOAD_SIZE,
            r@.len() == i,
            forall|j: int|
                0 <= j < i ==> r@[j] == FixedSupplyPdo::spec_decode(
                    le32_value(
                        payload@[4 * j],
                        payload@[4 * j + 1],
                        payload@[4 * j + 2],
                        payload@[4 * j + 3],
                    ),
                ),
        decreases n - i,
    {
        let raw = payload[4 * i] as u32 + 256 * payload[4 * i + 1] as u32 + 65536 * payload[4 * i
            + 2] as u32 + 16777216 * payload[4 * i + 3] as u32;
        r.push(FixedSupplyPdo::decode(raw));
        i = i + 1;
    }
    proof {
        assert(r@ =~= spec_decode_pdos(payload@));
    }
    r
}

/// Wire round trip of a power offer: the four little-endian bytes of an
/// encoded fixed-supply object decode back as the one-offer list holding it.
pub proof fn lemma_pdo_bytes_round_trip(p: FixedSupplyPdo)
    requires
        p.wf(),
    ensures
        spec_decode_pdos(crate::bits::le32_bytes(p.spec_encode())) == seq![p],
{
    crate::bits::lemma_le32_roundtrip(p.spec_encode());
    p.lemma_encode_decode();
    assert(spec_decode_pdos(crate::bits::le32_bytes(p.spec_encode())) =~= seq![p]);
}

/// The selection fold over the first `n` offers: index and power of the
/// running best, starting from `(0, 0)`.  An offer displaces the running
/// best only when its voltage is within the limit and its power is strictly
/// greater, so the earliest offer wins ties.
pub open spec fn spec_select(pdos: Seq<FixedSupplyPdo>, n: int) -> (int, u32)
    recommends
        0 <= n <= pdos.len(),
        forall|i: int| 0 <= i < pdos.len() ==> pdos[i].wf(),
    decreases n,
{
    if n <= 0 {
        (0, 0u32)
    } else {
        let prev = spec_select(pdos, n - 1);
        let pdo = pdos[n - 1];
        if pdo.spec_voltage() <= VOLTAGE_LIMIT_MV && pdo.spec_power() > prev.1 {
            (n - 1, pdo.spec_power())
        } else {
            prev
        }
    }
}

/// Applies the selection policy to an offer list, returning the chosen
/// index and its power in mW.
pub fn select_pdo(pdos: &Vec<FixedSupplyPdo>) -> (r: (usize, u32))
    requires
        forall|i: int| 0 <= i < pdos@.len() ==> pdos@[i].wf(),
    ensures
        (r.0 as int, r.1) == spec_select(pdos@, pdos@.len() as int),
{
    let mut selected: usize = 0;
    let mut power: u32 = 0;
    let mut i: usize = 0;
    while i < pdos.len()
        invariant
            i <= pdos@.len(),
            forall|j: int| 0 <= j < pdos@.len() ==> pdos@[j].wf(),
            (selected as int, power) == spec_select(pdos@, i as int),
        decreases pdos@.len() - i,
    {
        let pdo = &pdos[i];
        let pdo_power = pdo.power();
        if pdo.voltage() <= VOLTAGE_LIMIT_MV && pdo_power > power {
            selected = i;
            power = pdo_power;
        }
        i = i + 1;
    }
    (selected, power)
}

/// The selection policy, characterized: the result's power dominates every
/// offer within the voltage limit, and when any such offer has positive
/// power the chosen index is the earliest one achieving the maximum.
pub proof fn lemma_select_is_best(pdos: Seq<FixedSupplyPdo>, n: int)
    requires
        0 <= n <= pdos.len(),
        forall|i: int| 0 <= i < pdos.len() ==> pdos[i].wf(),
    ensures
        ({
            let (idx, pw) = spec_select(pdos, n);
            &&& 0 <= idx
            &&& idx < n || (idx == 0 && pw == 0)
            &&& pw > 0 ==> idx < n && pdos[idx].spec_voltage() <= VOLTAGE_LIMIT_MV
                && pdos[idx].spec_power() == pw
            &&& forall|j: int|
                0 <= j < n && pdos[j].spec_voltage() <= VOLTAGE_LIMIT_MV ==> pdos[j].spec_power()
                    <= pw
            &&& forall|j: int|
                0 <= j < spec_select(pdos, n).0 && pdos[j].spec_voltage() <= VOLTAGE_LIMIT_MV
                    ==> pdos[j].spec_power() < pw
        }),
    decreases n,
{
    if n > 0 {
        lemma_select_is_best(pdos, n - 1);
    }
}

/// The request object built from a selected offer: minimum and operating
/// current both at the offer's maximum, USB suspend declined, and the
/// offer's 1-based position in the capability list.
pub open spec fn spec_request_for(pdo: FixedSupplyPdo, position: u8) -> FixedVariableSupplyRequest
    recommends
        pdo.wf(),
{
    FixedVariableSupplyRequest {
        raw_min_operating_current: pdo.raw_max_current,
        raw_operating_current: pdo.raw_max_current,
        epr_mode_capable: false,
        unchunked_extended_messages_supported: false,
        no_usb_suspend: true,
        usb_communications_capable: false,
        capability_mismatch: false,
        give_back: false,
        object_position: (position % 16) as u8,
    }
}

/// Builds the request object for a selected offer.
pub fn build_request(pdo: &FixedSupplyPdo, position: u8) -> (r: FixedVariableSupplyRequest)
    requires
        pdo.wf(),
    ensures
        r == spec_request_for(*pdo, position),
        r.wf(),
{
    let r = FixedVariableSupplyRequest::new().with_min_operating_current(
        pdo.max_current(),
    ).with_operating_current(pdo.max_current()).with_no_usb_suspend(true).with_object_position(
        position,
    );
    proof {
        lemma_field_split(0, pdo.raw_max_current as int, 10);
        lemma_field_split(pdo.raw_max_current as int, 0, 1024);
    }
    r
}

/// The header of an outgoing request: one data object, revision 2, and the
/// session's current message ID.
pub open spec fn spec_request_header(message_id: u8) -> Header {
    Header {
        message_type: DataMessageType::Request.spec_value(),
        data_rate: false,
        spec_revision: 2,
        port_power_role: false,
        message_id: (message_id % 8) as u8,
        num_data_objects: 1,
        extended: false,
    }
}

/// What one capabilities message does to the session and what the staged
/// reply holds.  The offer list is replaced wholesale, the reply requests
/// the selected offer under the session's current message ID, and the ID
/// counter advances by one modulo 8.
pub open spec fn spec_source_caps_step(
    pre: Pd,
    post: Pd,
    payload: Seq<u8>,
    msg: Fusb302MessageBuffer,
) -> bool {
    let pdos = spec_decode_pdos(payload);
    let sel = spec_select(pdos, pdos.len() as int);
    let hdr = spec_request_header(pre.message_id);
    let req = spec_request_for(pdos[sel.0], (sel.0 + 1) as u8);
    &&& post.state == pre.state
    &&& post.status == pre.status
    &&& post.pdos@ == pdos
    &&& post.message_id == (pre.message_id + 1) % 8
    &&& msg.wf()
    &&& msg.len == 7
    &&& msg.buffer@.subrange(1, 3) == crate::bits::le16_bytes(hdr.spec_encode())
    &&& msg.buffer@.subrange(3, 7) == crate::bits::le32_bytes(req.spec_encode())
}

impl Pd {
    /// Handles a received source-capabilities message: replaces the offer
    /// list, selects the best offer within the voltage limit, and stages
    /// the matching request for immediate transmission under the next
    /// message ID.  The caller sends the staged message at once: the source
    /// may abandon negotiation if no timely request follows.
    pub fn handle_source_capabilities(&mut self, payload: &[u8]) -> (msg: Fusb302MessageBuffer)
        requires
            old(self).wf(),
            payload@.len() % 4 == 0,
            4 <= payload@.len() <= MAX_PAYLOAD_SIZE,
        ensures
            final(self).wf(),
            spec_source_caps_step(*old(self), *final(self), payload@, msg),
    {
        self.pdos = decode_pdos(payload);

        let (selected, _power) = select_pdo(&self.pdos);
        proof {
            lemma_select_is_best(self.pdos@, self.pdos@.len() as int);
        }

        let id = self.next_message_id();
        let mut msg = Fusb302MessageBuffer::new();
        let header = Header::new().with_message_type(
            DataMessageType::Request.value(),
        ).with_spec_revision(2).with_message_id(id).with_num_data_objects(1);
        msg.write_header(header.encode());

        let request = build_request(&self.pdos[selected], (selected as u8) + 1);
        let wrote = msg.write_data(request.encode());
        proof {
            assert(wrote is Ok);
            assert(msg.buffer@.subrange(1, 3) =~= crate::bits::le16_bytes(header.spec_encode()));
            assert(msg.buffer@.subrange(3, 7) =~= crate::bits::le32_bytes(request.spec_encode()));
        }
        msg
    }

    /// Dispatches one decoded message: a source-capabilities message (a
    /// data message of that type) triggers negotiation and yields the
    /// staged reply; everything else is left unhandled and the session is
    /// untouched.
    pub fn handle_message(&mut self, header: Header, payload: &[u8]) -> (r: Option<
        Fusb302MessageBuffer,
    >)
        requires
            old(self).wf(),
            header.wf(),
            payload@.len() == 4 * header.num_data_objects,
        ensures
            final(self).wf(),
            (header.num_data_objects > 0 && header.message_type
                == DataMessageType::SourceCapabilities.spec_value()) ==> (r is Some
                && spec_source_caps_step(*old(self), *final(self), payload@, r.unwrap())),
            !(header.num_data_objects > 0 && header.message_type
                == DataMessageType::SourceCapabilities.spec_value()) ==> (r is None && *final(self)
                == *old(self)),
    {
        if header.num_data_objects > 0 {
            match DataMessageType::from_u8(header.message_type) {
                Some(DataMessageType::SourceCapabilities) => Some(
                    self.handle_source_capabilities(payload),
                ),
                _ => None,
            }
        } else {
            None
        }
    }
}

/// One message framed out of the receive FIFO: its header and the payload
/// bytes its object count declared.
#[derive(Debug)]
pub struct RxMessage {
    pub header: Header,
    pub payload: Vec<u8>,
}

/// A receive-framing pass over a drained FIFO byte stream, from `pos` on.
/// Bytes whose top three bits are not the plain start-of-packet token are
/// discarded one at a time.  A start-of-packet token is followed by a
/// two-byte little-endian header, `4 * num_data_objects` payload bytes, and
/// four CRC bytes that the chip has already validated and that are dropped
/// here.  A stream that ends inside a message yields `None`.
pub open spec fn spec_rx_parse(s: Seq<u8>, pos: int) -> Option<Seq<(Header, Seq<u8>)>>
    recommends
        0 <= pos <= s.len(),
    decreases s.len() - pos,
        when 0 <= pos <= s.len()
{
    if pos >= s.len() {
        Some(Seq::empty())
    } else if s[pos] / 32 != 7 {
        spec_rx_parse(s, pos + 1)
    } else if pos + 3 > s.len() {
        None
    } else {
        let hdr = Header::spec_decode(le16_value(s[pos + 1], s[pos + 2]));
        let n = 4 * hdr.num_data_objects as int;
        if pos + 3 + n + 4 > s.len() {
            None
        } else {
            match spec_rx_parse(s, pos + 3 + n + 4) {
                Some(rest) => Some(seq![(hdr, s.subrange(pos + 3, pos + 3 + n))] + rest),
                None => None,
            }
        }
    }
}

/// The header/payload views of a list of framed messages.
pub open spec fn rx_views(v: Seq<RxMessage>) -> Seq<(Header, Seq<u8>)> {
    v.map(|i: int, m: RxMessage| (m.header, m.payload@))
}

/// Every message framed out of a stream carries exactly the payload its
/// header declared: `4 * num_data_objects` bytes, with at most seven
/// objects.
pub proof fn lemma_rx_payload_lengths(s: Seq<u8>, pos: int)
    requires
        0 <= pos <= s.len(),
    ensures
        spec_rx_parse(s, pos) matches Some(msgs) ==> forall|i: int|
            0 <= i < msgs.len() ==> (#[trigger] msgs[i]).1.len() == 4 * msgs[i].0.num_data_objects
                && msgs[i].0.num_data_objects <= 7,
    decreases s.len() - pos,
{
    if pos >= s.len() {
    } else if s[pos] / 32 != 7 {
        lemma_rx_payload_lengths(s, pos + 1);
    } else if pos + 3 > s.len() {
    } else {
        let hdr = Header::spec_decode(le16_value(s[pos + 1], s[pos + 2]));
        let n = 4 * hdr.num_data_objects as int;
        if pos + 3 + n + 4 <= s.len() {
            lemma_rx_payload_lengths(s, pos + 3 + n + 4);
        }
    }
}

/// Framing round trip: a stream holding one start-of-packet token, a staged
/// header in little-endian order, the payload its object count declares and
/// a CRC word frames back into exactly that header and payload.
pub proof fn lemma_frame_round_trip(token: u8, h: Header, payload: Seq<u8>, crc: Seq<u8>)
    requires
        token / 32 == 7,
        h.wf(),
        payload.len() == 4 * h.num_data_objects,
        crc.len() == 4,
    ensures
        spec_rx_parse(seq![token] + crate::bits::le16_bytes(h.spec_encode()) + payload + crc, 0)
            == Some(seq![(h, payload)]),
{
    let s = seq![token] + crate::bits::le16_bytes(h.spec_encode()) + payload + crc;
    let n = 4 * h.num_data_objects as int;
    assert(s.len() == 3 + n + 4);
    assert(s[0] == token);
    assert(s[1] == (h.spec_encode() % 256) as u8);
    assert(s[2] == (h.spec_encode() / 256) as u8);
    crate::bits::lemma_le16_roundtrip(h.spec_encode());
    h.lemma_encode_decode();
    assert(Header::spec_decode(le16_value(s[1], s[2])) == h);
    assert(spec_rx_parse(s, s.len() as int) == Some(Seq::<(Header, Seq<u8>)>::empty()));
    assert(s.subrange(3, 3 + n) =~= payload);
    assert(spec_rx_parse(s, 0) == Some(seq![(h, payload)] + Seq::<(Header, Seq<u8>)>::empty()));
    assert(seq![(h, payload)] + Seq::<(Header, Seq<u8>)>::empty() =~= seq![(h, payload)]);
}

/// Frames a drained receive-FIFO byte stream into messages.  Non-SOP tokens
/// are skipped; each message is the decoded header plus the payload bytes
/// its object count declared, with the trailing CRC word dropped.  A stream
/// that ends inside a message fails with a capacity error.
pub fn parse_rx_stream(bytes: &[u8]) -> (r: Result<Vec<RxMessage>, Error>)
    ensures
        match spec_rx_parse(bytes@, 0) {
            Some(msgs) => {
                &&& r is Ok
                &&& rx_views(r.unwrap()@) == msgs
            },
            None => r == Err::<Vec<RxMessage>, Error>(Error::Index),
        },
{
    let mut out: Vec<RxMessage> = Vec::new();
    let mut pos: usize = 0;
    while pos < bytes.len()
        invariant
            pos <= bytes@.len(),
            spec_rx_parse(bytes@, 0) == (match spec_rx_parse(bytes@, pos as int) {
                Some(rest) => Some(rx_views(out@) + rest),
                None => None::<Seq<(Header, Seq<u8>)>>,
            }),
        decreases bytes@.len() - pos,
    {
        let token = RxToken::decode(bytes[pos]);
        if !matches!(token.token, RxTokenType::Sop) {
            // Skip tokens that are not a plain start of packet.
            pos = pos + 1;
        } else {
            if bytes.len() - pos < 3 {
                proof {
                    assert(spec_rx_parse(bytes@, pos as int) is None);
                }
                return Err(Error::Index);
            }
            let raw_header = bytes[pos + 1] as u16 + 256 * bytes[pos + 2] as u16;
            let header = Header::decode(raw_header);
            let n = header.payload_len();
            if bytes.len() - (pos + 3) < n + 4 {
                proof {
                    assert(spec_rx_parse(bytes@, pos as int) is None);
                }
                return Err(Error::Index);
            }
            let mut payload: Vec<u8> = Vec::new();
            let mut j: usize = 0;
            while j < n
                invariant
                    j <= n,
                    pos + 3 + n + 4 <= bytes@.len(),
                    bytes@.len() <= usize::MAX,
                    payload@ =~= bytes@.subrange(pos + 3, pos + 3 + j),
                decreases n - j,
            {
                payload.push(bytes[pos + 3 + j]);
                j = j + 1;
            }
            let ghost prev_out = out@;
            let ghost prev_pos = pos as int;
            out.push(RxMessage { header, payload });
            pos = pos + 3 + n + 4;
            proof {
                let s = bytes@;
                let hdr = Header::spec_decode(le16_value(s[prev_pos + 1], s[prev_pos + 2]));
                assert(header == hdr);
                assert(payload@ =~= s.subrange(prev_pos + 3, prev_pos + 3 + 4 * hdr.num_data_objects));
                assert(rx_views(out@) =~= rx_views(prev_out).push((hdr, payload@)));
                match spec_rx_parse(s, pos as int) {
                    Some(rest) => {
                        assert(spec_rx_parse(s, prev_pos) == Some(
                            seq![(hdr, payload@)] + rest,
                        ));
                        assert(rx_views(prev_out) + (seq![(hdr, payload@)] + rest) =~= rx_views(
                            out@,
                        ) + rest);
                    },
                    None => {
                        assert(spec_rx_parse(s, prev_pos) is None);
                    },
                }
            }
        }
    }
    proof {
        assert(spec_rx_parse(bytes@, pos as int) == Some(Seq::<(Header, Seq<u8>)>::empty()));
        assert(rx_views(out@) + Seq::<(Header, Seq<u8>)>::empty() =~= rx_views(out@));
    }
    Ok(out)
}

} // verus!
