use openstar::hardware::HardwareError;
use openstar::frames::{HwDataFrame, HwIsoTpFrame};
use openstar::hardware::{AdapterChannel, AdapterFilter, AdapterHardware};
use openstar::protocol::{
    classify_reply, classify_response, device_error, exchange, is_response_pending, DTCState, ProtocolError, RequestLock,
    SessionState, DTC,
};
use openstar::simulation::{SimFault, SimulationAdapter};

#[test]
fn hardware_errors_wrap_losslessly() {
    let e: ProtocolError = HardwareError::HwApiError { code: 9, desc: "Device timeout".into() }.into();
    match e {
        ProtocolError::DeviceError(HardwareError::HwApiError { code, desc }) => {
            assert_eq!(code, 9);
            assert_eq!(desc, "Device timeout");
        }
        _ => panic!("expected a device error"),
    }
    match device_error(HardwareError::Other("x".into())) {
        ProtocolError::DeviceError(HardwareError::Other(s)) => assert_eq!(s, "x"),
        _ => panic!("expected a device error"),
    }
}

#[test]
fn dtc_fields() {
    let d = DTC::new("P0300".to_string(), DTCState::Active, true);
    assert_eq!(d.code(), "P0300");
    assert_eq!(d.state(), DTCState::Active);
    assert!(d.mil_on());
}

#[test]
fn negative_responses_become_ecu_errors() {
    assert!(matches!(classify_response(&[0x7F, 0x19, 0x31]), Err(ProtocolError::ECUError(0x31))));
    assert_eq!(classify_response(&[0x59, 0x02, 0xFF]).unwrap(), vec![0x59, 0x02, 0xFF]);
    assert_eq!(classify_response(&[0x7F, 0x19]).unwrap(), vec![0x7F, 0x19]);
    assert!(classify_response(&[]).unwrap().is_empty());
    assert!(is_response_pending(&[0x7F, 0x31, 0x78]));
    assert!(!is_response_pending(&[0x7F, 0x31, 0x22]));
}

#[test]
fn lock_admits_one_request_at_a_time() {
    let mut g = RequestLock::new();
    assert_eq!(g.state(), SessionState::Idle);
    assert!(g.begin().is_ok());
    assert_eq!(g.state(), SessionState::AwaitingResponse);
    assert!(matches!(g.begin(), Err(ProtocolError::ServerError(_))));
    g.finish();
    assert!(g.begin().is_ok());
}

#[test]
fn exchange_classifies_replies() {
    let mut sim = SimulationAdapter::new();
    sim.open_device().unwrap();
    let ch = sim.open_channel(AdapterChannel::IsoTp).unwrap();
    sim.add_channel_filter(ch, AdapterFilter::IsoTP { mask: 0x7FF, id: 0x7E0, fc: 0x7E8 }, 500_000, &[]).unwrap();
    let mut lock = RequestLock::new();
    let ok = exchange(&mut lock, &mut sim, HwIsoTpFrame::new(0x7E0, false, &[0x3E, 0x00]), 10, 10).unwrap();
    assert_eq!(ok.get_data(), &[0x3E, 0x00]);
    let neg = exchange(&mut lock, &mut sim, HwIsoTpFrame::new(0x7E0, false, &[0x7F, 0x10, 0x12]), 10, 10);
    assert!(matches!(neg, Err(ProtocolError::ECUError(0x12))));
    assert_eq!(lock.state(), SessionState::Idle);
    sim.fail_next(SimFault::WriteData);
    let dev = exchange(&mut lock, &mut sim, HwIsoTpFrame::new(0x7E0, false, &[0x3E]), 10, 10);
    assert!(matches!(dev, Err(ProtocolError::DeviceError(HardwareError::Other(_)))));
    lock.begin().unwrap();
    let busy = exchange(&mut lock, &mut sim, HwIsoTpFrame::new(0x7E0, false, &[0x3E]), 10, 10);
    assert!(matches!(busy, Err(ProtocolError::ServerError(_))));
}

#[test]
fn reply_frames_are_classified() {
    let neg = classify_reply(HwIsoTpFrame::new(0x7E8, false, &[0x7F, 0x22, 0x31]));
    assert!(matches!(neg, Err(ProtocolError::ECUError(0x31))));
    let pos = classify_reply(HwIsoTpFrame::new(0x7E8, false, &[0x62, 0xF1, 0x90])).unwrap();
    assert_eq!(pos.get_id(), 0x7E8);
    assert_eq!(pos.get_data(), &[0x62, 0xF1, 0x90]);
}
