use usb_pd_sink::bq25620::{AdcControl, AdcVoltage, PartInformation, Register};
use usb_pd_sink::fusb302::{
    Control0, Control3, DeviceId, Fusb302Register, Measure, RxToken, RxTokenType, Status, Status0,
    Status1, Switches0, Switches1, TxToken,
};
use usb_pd_sink::proto::{
    ControlMessageType, DataMessageType, FixedSupplyPdo, FixedVariableSupplyRequest, Header,
};

#[test]
fn header_round_trip() {
    let h = Header::new()
        .with_message_type(2)
        .with_spec_revision(2)
        .with_message_id(5)
        .with_num_data_objects(1);
    let raw = h.encode();
    assert_eq!(raw, 2 + 64 * 2 + 512 * 5 + 4096);
    assert_eq!(Header::decode(raw), h);
}

#[test]
fn header_round_trip_all_flags() {
    let h = Header {
        message_type: 31,
        data_rate: true,
        spec_revision: 3,
        port_power_role: true,
        message_id: 7,
        num_data_objects: 7,
        extended: true,
    };
    assert_eq!(Header::decode(h.encode()), h);
    assert_eq!(h.encode(), 0xffff);
}

#[test]
fn header_field_masking() {
    // Building a value never exceeds the underlying width: fields are
    // masked to their declared bit count on write.
    let h = Header::new().with_message_type(0xff).with_message_id(0x09);
    assert_eq!(h.message_type, 0x1f);
    assert_eq!(h.message_id, 1);
}

#[test]
fn header_payload_len_is_four_per_object() {
    for n in 0..=7u8 {
        let h = Header::new().with_num_data_objects(n);
        assert_eq!(h.payload_len(), 4 * n as usize);
    }
}

#[test]
fn switches0_round_trip() {
    let s = Switches0 {
        pdwn1: true,
        pdwn2: true,
        meas_cc1: false,
        meas_cc2: true,
        vconn_cc1: false,
        vconn_cc2: false,
        pu_en1: false,
        pu_en2: true,
    };
    let raw = s.encode();
    assert_eq!(raw, 0b1000_1011);
    assert_eq!(Switches0::decode(raw), s);
}

#[test]
fn switches1_round_trip() {
    let s = Switches1 {
        txcc1: true,
        txcc2: false,
        auto_crc: true,
        data_role: false,
        spec_rev: 2,
        power_role: true,
    };
    let raw = s.encode();
    assert_eq!(raw, 1 + 4 + 64 + 128);
    assert_eq!(Switches1::decode(raw), s);
}

#[test]
fn measure_reserved_bit_is_discarded() {
    // Decoding keeps only declared fields; re-encoding writes the reserved
    // bit as zero.  This is the documented identity loss on raw values.
    let m = Measure::decode(0xff);
    assert_eq!(m.mdac, 63);
    assert!(m.meas_vbus);
    assert_eq!(m.encode(), 0x7f);
}

#[test]
fn control_registers_round_trip() {
    let c0 = Control0 {
        tx_start: false,
        auto_pre: false,
        host_cur: 3,
        int_mask: true,
        tx_flush: false,
    };
    assert_eq!(Control0::decode(c0.encode()), c0);
    assert_eq!(c0.encode(), 4 * 3 + 32);
    let c3 = Control3 {
        auto_retry: true,
        n_retries: 3,
        auto_hardreset: false,
        auto_softreset: false,
        bist_t_mode: false,
        send_hard_reset: true,
    };
    assert_eq!(Control3::decode(c3.encode()), c3);
    assert_eq!(c3.encode(), 1 + 2 * 3 + 64);
}

#[test]
fn status_registers_decode() {
    let s0 = Status0::decode(0b1000_0010);
    assert_eq!(s0.bc_lvl, 2);
    assert!(s0.vbusok);
    assert!(!s0.activity);
    let s1 = Status1::decode(0b0010_0010);
    assert!(s1.overtemp);
    assert!(s1.rx_empty);
    assert!(!s1.ocp);
}

#[test]
fn status_snapshot_from_bytes() {
    let st = Status::from_bytes(&[0, 0, 0b100, 1, 0x80, 0, 0]);
    assert!(st.interrupt_a.i_txsent);
    assert!(st.interrupt_b.i_gcrcsent);
    assert!(st.status_0.vbusok);
    assert!(!st.status_1.overtemp);
}

#[test]
fn status_snapshot_default_is_all_clear() {
    let st = Status::default();
    assert_eq!(st, Status::from_bytes(&[0; 7]));
    assert!(!st.status_0.vbusok);
    assert!(!st.interrupt_b.i_gcrcsent);
}

#[test]
fn device_id_round_trip() {
    let d = DeviceId::decode(0x91);
    assert_eq!(d.revision, 1);
    assert_eq!(d.product, 0);
    assert_eq!(d.version, 9);
    assert_eq!(d.encode(), 0x91);
}

#[test]
fn register_addresses() {
    assert_eq!(Fusb302Register::DeviceId.addr(), 0x01);
    assert_eq!(Fusb302Register::Status0A.addr(), 0x3c);
    assert_eq!(Fusb302Register::Fifos.addr(), 0x43);
    assert_eq!(Register::AdcControl.addr(), 0x26);
    assert_eq!(Register::VsysAdc.addr(), 0x32);
    assert_eq!(Register::PartInformation.addr(), 0x38);
}

#[test]
fn rx_token_kinds_cover_all_bytes() {
    // The 3-bit token domain is fully enumerated: every byte maps onto a
    // definite kind, taken from the top three bits.
    assert_eq!(RxToken::decode(0xe0).token, RxTokenType::Sop);
    assert_eq!(RxToken::decode(0xff).token, RxTokenType::Sop);
    assert_eq!(RxToken::decode(0xc5).token, RxTokenType::Sop1);
    assert_eq!(RxToken::decode(0x00).token, RxTokenType::Reserved0);
    assert_eq!(RxTokenType::from_u8(5), RxTokenType::Sop2);
    assert_eq!(RxTokenType::Sop.value(), 7);
}

#[test]
fn tx_token_values() {
    assert_eq!(TxToken::Sop1.value(), 0x12);
    assert_eq!(TxToken::Sop2.value(), 0x13);
    assert_eq!(TxToken::Eop.value(), 0x14);
    assert_eq!(TxToken::PackSym.value(), 0x80);
    assert_eq!(TxToken::TxOn.value(), 0xa1);
    assert_eq!(TxToken::TxOff.value(), 0xfe);
    assert_eq!(TxToken::JamCrc.value(), 0xff);
}

#[test]
fn message_type_codes() {
    assert_eq!(
        DataMessageType::from_u8(0x01),
        Some(DataMessageType::SourceCapabilities)
    );
    assert_eq!(DataMessageType::from_u8(0x02), Some(DataMessageType::Request));
    assert_eq!(DataMessageType::from_u8(0x1f), None);
    assert_eq!(DataMessageType::Request.value(), 0x02);
    assert_eq!(
        ControlMessageType::from_u8(0x01),
        Some(ControlMessageType::GoodCrc)
    );
    assert_eq!(ControlMessageType::from_u8(0x0d), None);
    assert_eq!(ControlMessageType::GetRevision.value(), 0x18);
}

#[test]
fn pdo_round_trip_and_derived_values() {
    // 5 V / 3 A: raw voltage 100 (50 mV units), raw current 300 (10 mA).
    let raw = 300u32 + 1024 * 100;
    let pdo = FixedSupplyPdo::decode(raw);
    assert_eq!(pdo.raw_max_current, 300);
    assert_eq!(pdo.raw_voltage, 100);
    assert_eq!(pdo.voltage(), 5000);
    assert_eq!(pdo.max_current(), 3000);
    assert_eq!(pdo.power(), 15000);
    assert_eq!(pdo.encode(), raw);
}

#[test]
fn pdo_flags_round_trip() {
    let raw = 0xffff_ffffu32;
    let pdo = FixedSupplyPdo::decode(raw);
    assert_eq!(pdo.raw_max_current, 1023);
    assert_eq!(pdo.raw_voltage, 1023);
    assert_eq!(pdo.peak_current, 3);
    assert!(pdo.dual_role_power);
    assert!(pdo.usb_suspend_supported);
    assert!(pdo.unconstrained_power);
    assert!(pdo.usb_communications_capable);
    assert!(pdo.dual_role_data);
    assert!(pdo.epr_mode_capable);
    assert_eq!(pdo.pdo_type, 3);
    // Bit 22 is reserved, so re-encoding drops exactly that bit.
    assert_eq!(pdo.encode(), 0xffff_ffff - (1 << 22));
}

#[test]
fn request_current_masking() {
    let r = FixedVariableSupplyRequest::new().with_operating_current(3000);
    assert_eq!(r.raw_operating_current, 300);
    // 10 mA quantization rounds down.
    let r = FixedVariableSupplyRequest::new().with_min_operating_current(10235);
    assert_eq!(r.raw_min_operating_current, 1023);
    // Values beyond the 10-bit field are masked to its width.
    let r = FixedVariableSupplyRequest::new().with_operating_current(10250);
    assert_eq!(r.raw_operating_current, 1);
}

#[test]
fn request_round_trip() {
    let r = FixedVariableSupplyRequest::new()
        .with_min_operating_current(2000)
        .with_operating_current(2000)
        .with_no_usb_suspend(true)
        .with_object_position(2);
    let raw = r.encode();
    assert_eq!(raw, 200 + 1024 * 200 + 16777216 + 268435456 * 2);
    assert_eq!(FixedVariableSupplyRequest::decode(raw), r);
}

#[test]
fn adc_voltage_micro_volts() {
    let v = AdcVoltage::decode(4 * 1000);
    assert_eq!(v.raw_voltage, 1000);
    assert_eq!(v.microvolts(), 3_970_000);
    assert_eq!(v.encode(), 4000);
    // The two reserved bits around the field are ignored on decode.
    let v = AdcVoltage::decode(0xffff);
    assert_eq!(v.raw_voltage, 8191);
}

#[test]
fn adc_control_round_trip() {
    let c = AdcControl::new().with_adc_en(true);
    assert_eq!(c.encode(), 0x80);
    assert_eq!(AdcControl::decode(0x80), c);
}

#[test]
fn part_information_round_trip() {
    let p = PartInformation::decode(0b0010_1011);
    assert_eq!(p.dev_rev, 3);
    assert_eq!(p.pn, 5);
    assert_eq!(p.encode(), 0b0010_1011);
}
