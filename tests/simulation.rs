use openstar::frames::{HWCanFrame, HwDataFrame, HwIsoTpFrame};
use openstar::hardware::{AdapterBuffer, AdapterChannel, AdapterFilter, AdapterHardware, ChannelFlags};
use openstar::simulation::SimulationAdapter;

fn opened() -> SimulationAdapter {
    let mut sim = SimulationAdapter::new();
    sim.open_device().unwrap();
    sim
}

#[test]
fn fresh_channel_admits_nothing() {
    let mut sim = opened();
    let ch = sim.open_channel(AdapterChannel::Can).unwrap();
    sim.inject_frame(AdapterChannel::Can, 0x7E8, &[0x02, 0x10, 0x03]);
    sim.write_data(&[HWCanFrame::new(0x7E8, &[1, 2])], 0).unwrap();
    let got: Vec<HWCanFrame> = sim.read_data(10, 0).unwrap();
    assert!(got.is_empty());
    sim.add_channel_filter(ch, AdapterFilter::Pass { mask: 0x7FF, id: 0x7E8 }, 500_000, &[]).unwrap();
    sim.inject_frame(AdapterChannel::Can, 0x7E8, &[0x02, 0x10, 0x03]);
    let got: Vec<HWCanFrame> = sim.read_data(10, 0).unwrap();
    assert_eq!(got.len(), 1);
    assert_eq!(got[0].get_id(), 0x7E8);
    assert_eq!(got[0].get_data(), &[0x02, 0x10, 0x03]);
}

#[test]
fn pass_filter_scenario_truncates_and_rejects_other_id() {
    let mut sim = opened();
    let ch = sim.open_channel(AdapterChannel::Can).unwrap();
    sim.add_channel_filter(ch, AdapterFilter::Pass { mask: 0x7FF, id: 0x7E8 }, 500_000, &[]).unwrap();
    let payload: Vec<u8> = (1..=11).collect();
    let frame = HWCanFrame::new(0x7E0, &payload);
    assert_eq!(frame.get_data(), &payload[0..8]);
    assert_eq!(frame.dlc(), 8);
    assert_ne!(0x7E0 & 0x7FF, 0x7E8);
    sim.write_data(&[frame], 0).unwrap();
    let got: Vec<HWCanFrame> = sim.read_data(10, 0).unwrap();
    assert!(got.iter().all(|f| f.get_id() != 0x7E0));
    assert!(got.is_empty());
}

#[test]
fn two_filters_get_distinct_ids_and_delete_independently() {
    let mut sim = opened();
    let ch = sim.open_channel(AdapterChannel::Can).unwrap();
    let a = sim.add_channel_filter(ch, AdapterFilter::Pass { mask: 0x7FF, id: 0x7E8 }, 500_000, &[]).unwrap();
    let b = sim
        .add_channel_filter(ch, AdapterFilter::Block { mask: 0x7FF, id: 0x7E9 }, 500_000, &[ChannelFlags::CAN_USE_29BIT_ADDR])
        .unwrap();
    assert_ne!(a, b);
    assert_eq!(sim.del_channel_filter(ch, b).unwrap(), b);
    assert!(sim.del_channel_filter(ch, b).is_err());
    sim.inject_frame(AdapterChannel::Can, 0x7E8, &[0x01]);
    let got: Vec<HWCanFrame> = sim.read_data(10, 0).unwrap();
    assert_eq!(got.len(), 1);
    assert_eq!(sim.del_channel_filter(ch, a).unwrap(), a);
}

#[test]
fn block_filter_overrides_pass() {
    let mut sim = opened();
    let ch = sim.open_channel(AdapterChannel::Can).unwrap();
    sim.add_channel_filter(ch, AdapterFilter::Pass { mask: 0x700, id: 0x700 }, 500_000, &[]).unwrap();
    sim.add_channel_filter(ch, AdapterFilter::Block { mask: 0x7FF, id: 0x7DF }, 500_000, &[]).unwrap();
    sim.inject_frame(AdapterChannel::Can, 0x7DF, &[0x01]);
    sim.inject_frame(AdapterChannel::Can, 0x7E8, &[0x02]);
    let got: Vec<HWCanFrame> = sim.read_data(10, 0).unwrap();
    assert_eq!(got.len(), 1);
    assert_eq!(got[0].get_id(), 0x7E8);
}

#[test]
fn read_respects_max_and_order() {
    let mut sim = opened();
    let ch = sim.open_channel(AdapterChannel::IsoTp).unwrap();
    sim.add_channel_filter(ch, AdapterFilter::IsoTP { mask: 0x7FF, id: 0x7E8, fc: 0x7E0 }, 500_000, &[]).unwrap();
    for i in 0..3u8 {
        sim.inject_frame(AdapterChannel::IsoTp, 0x7E8, &[i; 20]);
    }
    let first: Vec<HwIsoTpFrame> = sim.read_data(2, 0).unwrap();
    assert_eq!(first.len(), 2);
    assert_eq!(first[0].get_data(), &[0u8; 20]);
    assert_eq!(first[1].get_data(), &[1u8; 20]);
    let rest: Vec<HwIsoTpFrame> = sim.read_data(5, 0).unwrap();
    assert_eq!(rest.len(), 1);
    assert_eq!(rest[0].get_data(), &[2u8; 20]);
    let can: HwIsoTpFrame = HwIsoTpFrame::new(0x7E8, false, &[]);
    assert_eq!(can.get_data().len(), 0);
}

#[test]
fn clear_buffer_and_close_channel() {
    let mut sim = opened();
    let ch = sim.open_channel(AdapterChannel::Can).unwrap();
    sim.add_channel_filter(ch, AdapterFilter::Pass { mask: 0, id: 0 }, 500_000, &[]).unwrap();
    sim.inject_frame(AdapterChannel::Can, 0x123, &[1]);
    sim.clear_channel_buffer(ch, AdapterBuffer::Output).unwrap();
    sim.clear_channel_buffer(ch, AdapterBuffer::Input).unwrap();
    let got: Vec<HWCanFrame> = sim.read_data(10, 0).unwrap();
    assert!(got.is_empty());
    sim.close_channel(ch).unwrap();
    assert!(sim.close_channel(ch).is_err());
    assert!(sim.add_channel_filter(ch, AdapterFilter::Pass { mask: 0, id: 0 }, 500_000, &[]).is_err());
    assert!(sim.read_data::<HWCanFrame>(1, 0).is_err());
}

#[test]
fn closed_device_refuses_work() {
    let mut sim = SimulationAdapter::new();
    assert!(sim.open_channel(AdapterChannel::Can).is_err());
    assert!(sim.read_voltage().is_err());
    assert!(sim.write_data(&[HWCanFrame::new(1, &[])], 0).is_err());
    sim.open_device().unwrap();
    assert_eq!(sim.read_voltage().unwrap(), 12000);
    let ch = sim.open_channel(AdapterChannel::Kwp).unwrap();
    assert_eq!(ch, 1);
    assert!(sim.reset_device().is_ok());
    assert!(sim.close_channel(ch).is_err());
}
