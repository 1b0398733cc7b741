use usb_pd_sink::fusb302::Fusb302Register;
use usb_pd_sink::pd::{
    cc_commit_writes, cc_polarity, cc_sample1_writes, cc_sample2_writes, check_device_id,
    fusb_reset_writes, id_poll_step, select_pdo, setup_config_writes, setup_reset_write,
    wait_for_vbus_writes, CcLine, Pd, PdState, RegWrite, CC_POLL_DELAY_MS, CC_SETTLE_DELAY_MS,
    SETUP_ID_RETRIES,
};
use usb_pd_sink::proto::FixedSupplyPdo;
use usb_pd_sink::Error;

fn pdo(raw_voltage: u16, raw_max_current: u16) -> FixedSupplyPdo {
    let mut p = FixedSupplyPdo::decode(0);
    p.raw_voltage = raw_voltage;
    p.raw_max_current = raw_max_current;
    p
}

#[test]
fn cc_detection_picks_higher_reading() {
    // CC1 reading 2 against CC2 reading 1: CC1 is the active line.
    assert_eq!(cc_polarity(2, 1), Ok(CcLine::Cc1));
    assert_eq!(cc_polarity(1, 2), Ok(CcLine::Cc2));
}

#[test]
fn cc_detection_fails_on_equal_readings() {
    assert_eq!(cc_polarity(2, 2), Err(Error::NoCcDetected));
    assert_eq!(cc_polarity(0, 0), Err(Error::NoCcDetected));
}

#[test]
fn message_ids_increment_modulo_eight() {
    let mut pd = Pd::new();
    let mut seen = Vec::new();
    for _ in 0..10 {
        seen.push(pd.next_message_id());
    }
    assert_eq!(seen, vec![0, 1, 2, 3, 4, 5, 6, 7, 0, 1]);
}

#[test]
fn reset_state_advances_only_on_successful_bringup() {
    let mut pd = Pd::new();
    assert_eq!(pd.state, PdState::Reset);
    pd.handle_reset_result(false);
    assert_eq!(pd.state, PdState::Reset);
    pd.handle_reset_result(true);
    assert_eq!(pd.state, PdState::WaitForVbus);
}

#[test]
fn vbus_wait_advances_once_vbus_ok() {
    let mut pd = Pd::new();
    pd.handle_reset_result(true);
    // VBUS not yet present: stay put.
    let ev = pd.poll_status(&[0, 0, 0, 0, 0x00, 0, 0]);
    assert!(!ev.new_data);
    assert!(!pd.handle_vbus_check());
    assert_eq!(pd.state, PdState::WaitForVbus);
    // STATUS0 bit 7 is VBUS-ok.
    pd.poll_status(&[0, 0, 0, 0, 0x80, 0, 0]);
    assert!(pd.handle_vbus_check());
    assert_eq!(pd.state, PdState::PollCC);
}

#[test]
fn cc_poll_retries_until_detection() {
    let mut pd = Pd::new();
    pd.handle_reset_result(true);
    pd.poll_status(&[0, 0, 0, 0, 0x80, 0, 0]);
    pd.handle_vbus_check();
    pd.handle_poll_cc_result(false);
    assert_eq!(pd.state, PdState::PollCC);
    pd.handle_poll_cc_result(true);
    assert_eq!(pd.state, PdState::Online);
}

#[test]
fn online_returns_to_reset_on_vbus_loss() {
    let mut pd = Pd::new();
    pd.handle_reset_result(true);
    pd.poll_status(&[0, 0, 0, 0, 0x80, 0, 0]);
    pd.handle_vbus_check();
    pd.handle_poll_cc_result(true);
    pd.poll_status(&[0, 0, 0, 0, 0x80, 0, 0]);
    pd.handle_online_status();
    assert_eq!(pd.state, PdState::Online);
    pd.poll_status(&[0, 0, 0, 0, 0x00, 0, 0]);
    pd.handle_online_status();
    assert_eq!(pd.state, PdState::Reset);
}

#[test]
fn status_events_mirror_interrupt_bits() {
    let mut pd = Pd::new();
    // INTERRUPTA: i_txsent (bit 2) and i_retryfail (bit 4).
    let ev = pd.poll_status(&[0, 0, 0b0001_0100, 0, 0, 0, 0]);
    assert!(ev.tx_sent);
    assert!(ev.retry_fail);
    assert!(!ev.over_temp);
    assert!(!ev.new_data);
    // Over-temperature fires from the interrupt bit or the status bit.
    let ev = pd.poll_status(&[0, 0, 0x80, 0, 0, 0, 0]);
    assert!(ev.over_temp);
    let ev = pd.poll_status(&[0, 0, 0, 0, 0, 0b10, 0]);
    assert!(ev.over_temp);
    // INTERRUPTB bit 0: good CRC sent, drain the FIFO.
    let ev = pd.poll_status(&[0, 0, 0, 1, 0, 0, 0]);
    assert!(ev.new_data);
}

#[test]
fn device_id_validation() {
    assert_eq!(check_device_id(0x00), Err(Error::InvalidDeviceId));
    assert_eq!(check_device_id(0xff), Err(Error::InvalidDeviceId));
    let id = check_device_id(0x91).unwrap();
    assert_eq!(id.version, 9);
    assert_eq!(id.revision, 1);
}

#[test]
fn id_poll_gives_up_after_last_retry() {
    assert_eq!(id_poll_step(true, 5), Ok(true));
    assert_eq!(id_poll_step(false, 5), Ok(false));
    assert_eq!(id_poll_step(false, 2), Ok(false));
    assert_eq!(id_poll_step(false, 1), Err(Error::SoftResetFailure));
    assert_eq!(SETUP_ID_RETRIES, 5);
}

#[test]
fn timing_constants() {
    assert_eq!(CC_SETTLE_DELAY_MS, 20);
    assert_eq!(CC_POLL_DELAY_MS, 500);
}

#[test]
fn reset_plan_bytes() {
    let w = fusb_reset_writes();
    assert_eq!(
        w,
        vec![
            RegWrite { reg: Fusb302Register::Control0, value: 0x44 },
            RegWrite { reg: Fusb302Register::Control1, value: 0x04 },
            RegWrite { reg: Fusb302Register::Reset, value: 0x02 },
        ]
    );
}

#[test]
fn setup_plan_bytes() {
    assert_eq!(
        setup_reset_write(),
        RegWrite { reg: Fusb302Register::Reset, value: 0x01 }
    );
    let w = setup_config_writes();
    assert_eq!(
        w,
        vec![
            RegWrite { reg: Fusb302Register::Power, value: 0x0f },
            RegWrite { reg: Fusb302Register::Mask1, value: 0x00 },
            RegWrite { reg: Fusb302Register::MaskA, value: 0x00 },
            RegWrite { reg: Fusb302Register::MaskB, value: 0x00 },
            RegWrite { reg: Fusb302Register::Control0, value: 0x0c },
            RegWrite { reg: Fusb302Register::Control3, value: 0x07 },
            RegWrite { reg: Fusb302Register::Control2, value: 0x00 },
            RegWrite { reg: Fusb302Register::Control1, value: 0x04 },
        ]
    );
}

#[test]
fn vbus_wait_plan_bytes() {
    let w = wait_for_vbus_writes();
    assert_eq!(
        w,
        vec![
            RegWrite { reg: Fusb302Register::Measure, value: 0x40 },
            RegWrite { reg: Fusb302Register::Switches0, value: 0x03 },
        ]
    );
}

#[test]
fn cc_detection_plan_bytes() {
    assert_eq!(
        cc_sample1_writes(),
        vec![
            RegWrite { reg: Fusb302Register::Measure, value: 0x31 },
            RegWrite { reg: Fusb302Register::Switches0, value: 0x07 },
        ]
    );
    assert_eq!(
        cc_sample2_writes(),
        vec![RegWrite { reg: Fusb302Register::Switches0, value: 0x0b }]
    );
    // Terminate and transmit on the winner first; the FIFO flush follows.
    assert_eq!(
        cc_commit_writes(CcLine::Cc1),
        vec![
            RegWrite { reg: Fusb302Register::Switches0, value: 0x07 },
            RegWrite { reg: Fusb302Register::Switches1, value: 0x05 },
            RegWrite { reg: Fusb302Register::Control1, value: 0x04 },
        ]
    );
    assert_eq!(
        cc_commit_writes(CcLine::Cc2),
        vec![
            RegWrite { reg: Fusb302Register::Switches0, value: 0x0b },
            RegWrite { reg: Fusb302Register::Switches1, value: 0x06 },
            RegWrite { reg: Fusb302Register::Control1, value: 0x04 },
        ]
    );
}

#[test]
fn selection_prefers_highest_power_within_voltage_limit() {
    // Offers 5 V/3 A, 9 V/2 A and 20 V/1 A: powers 15 W, 18 W and 20 W.
    // The 20 V offer exceeds the 18 V cap, so the 9 V/2 A offer wins.
    let offers = vec![pdo(100, 300), pdo(180, 200), pdo(400, 100)];
    assert_eq!(offers[0].power(), 15000);
    assert_eq!(offers[1].power(), 18000);
    assert_eq!(offers[2].power(), 20000);
    assert_eq!(select_pdo(&offers), (1, 18000));
}

#[test]
fn selection_breaks_ties_toward_earlier_offer() {
    let offers = vec![pdo(100, 300), pdo(300, 100), pdo(150, 200)];
    assert_eq!(offers[0].power(), 15000);
    assert_eq!(offers[1].power(), 15000);
    assert_eq!(select_pdo(&offers), (0, 15000));
}

#[test]
fn selection_with_no_eligible_offer_defaults_to_first() {
    let offers = vec![pdo(400, 100), pdo(500, 100)];
    assert_eq!(select_pdo(&offers), (0, 0));
}
