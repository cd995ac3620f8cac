use openstar::frames::{HWCanFrame, HwDataFrame};
use openstar::hardware::{
    get_device_list, open_device, passthru_error, AdapterChannel, AdapterFilter, AdapterHardware,
    HardwareAPI, HardwareError,
};
use openstar::simulation::{SimFault, SimulationAdapter};

fn opened() -> SimulationAdapter {
    let mut sim = SimulationAdapter::new();
    sim.open_device().unwrap();
    sim
}

#[test]
fn reset_device_stops_at_failed_close() {
    let mut dev = opened();
    let ch = dev.open_channel(AdapterChannel::Can).unwrap();
    dev.fail_next(SimFault::CloseDevice);
    let r = dev.reset_device();
    assert!(matches!(r, Err(HardwareError::Other(ref s)) if s == "simulated close failure"));
    assert_eq!(dev.device_opens(), 1);
    assert!(dev.add_channel_filter(ch, AdapterFilter::Pass { mask: 0, id: 0 }, 500_000, &[]).is_ok());
}

#[test]
fn reset_device_closes_then_opens() {
    let mut dev = opened();
    let ch = dev.open_channel(AdapterChannel::Can).unwrap();
    assert!(dev.reset_device().is_ok());
    assert_eq!(dev.device_opens(), 2);
    assert!(dev.close_channel(ch).is_err());
}

#[test]
fn read_and_write_stops_at_failed_write() {
    let mut dev = opened();
    let ch = dev.open_channel(AdapterChannel::Can).unwrap();
    dev.add_channel_filter(ch, AdapterFilter::Pass { mask: 0x7FF, id: 0x7E8 }, 500_000, &[]).unwrap();
    dev.inject_frame(AdapterChannel::Can, 0x7E8, &[0x7E, 0x00]);
    dev.fail_next(SimFault::WriteData);
    let r = dev.read_and_write(HWCanFrame::new(0x7E0, &[0x3E, 0x00]), 10, 10);
    assert!(matches!(r, Err(HardwareError::Other(ref s)) if s == "simulated write failure"));
    let still: Vec<HWCanFrame> = dev.read_data(10, 0).unwrap();
    assert_eq!(still.len(), 1);
}

#[test]
fn read_and_write_returns_the_response() {
    let mut dev = opened();
    let ch = dev.open_channel(AdapterChannel::Can).unwrap();
    dev.add_channel_filter(ch, AdapterFilter::Pass { mask: 0x7FF, id: 0x7E0 }, 500_000, &[]).unwrap();
    let r = dev.read_and_write(HWCanFrame::new(0x7E0, &[0x3E, 0x00]), 10, 10).unwrap();
    assert_eq!(r.get_id(), 0x7E0);
    assert_eq!(r.get_data(), &[0x3E, 0x00]);
}

#[test]
fn read_and_write_without_response_fails() {
    let mut dev = opened();
    dev.open_channel(AdapterChannel::Can).unwrap();
    let r = dev.read_and_write(HWCanFrame::new(0x7E0, &[0x3E, 0x00]), 10, 10);
    assert!(matches!(r, Err(HardwareError::Other(_))));
}

#[test]
fn api_names_order_and_default() {
    assert_eq!(HardwareAPI::Null.to_string(), "NULL");
    assert_eq!(HardwareAPI::Passthru.to_string(), "Passthru");
    assert_eq!(HardwareAPI::Pdu.to_string(), "D-PDU");
    assert_eq!(HardwareAPI::Sd.to_string(), "SDConnect");
    assert_eq!(HardwareAPI::Sim.to_string(), "Simulation");
    assert_eq!(HardwareAPI::SocketCAN.to_string(), "SocketCAN");
    assert_eq!(HardwareAPI::default(), HardwareAPI::Null);
    assert!(HardwareAPI::Null < HardwareAPI::Passthru);
    assert!(HardwareAPI::Sim < HardwareAPI::SocketCAN);
}

#[test]
fn device_lists() {
    assert_eq!(get_device_list(HardwareAPI::Sim, None), vec!["OpenStar-Simulation".to_string()]);
    let found = vec!["Tactrix OpenPort 2.0".to_string(), "Macchina M2".to_string()];
    assert_eq!(get_device_list(HardwareAPI::Passthru, Some(found.clone())), found);
    assert!(get_device_list(HardwareAPI::Passthru, None).is_empty());
    assert!(get_device_list(HardwareAPI::Pdu, Some(found)).is_empty());
    assert!(get_device_list(HardwareAPI::Null, None).is_empty());
    assert!(open_device("OpenStar-Simulation", HardwareAPI::Sim));
}

#[test]
fn passthru_codes_map_to_api_errors() {
    match passthru_error(0x09) {
        Some(HardwareError::HwApiError { code, desc }) => {
            assert_eq!(code, 0x09);
            assert_eq!(desc, "Device timeout");
        }
        _ => panic!("expected an api error"),
    }
    match passthru_error(0x00) {
        Some(HardwareError::HwApiError { code, desc }) => {
            assert_eq!(code, 0);
            assert_eq!(desc, "No Error");
        }
        _ => panic!("expected an api error"),
    }
    assert!(passthru_error(0x1A).is_some());
    assert!(passthru_error(0x1B).is_none());
}
