use openstar::frames::{HWCanFrame, HwDataFrame, HwIsoTpFrame, HwKwpFrame};
use openstar::logger::{Loggable, LogLevel, Logger};

#[test]
fn test_log() {
    let logger = Logger::new("Hardware");
    let can = HWCanFrame::new(0x001C, &[0x00, 0x01, 0x02, 0x03]);
    logger.log_object(&can);
}

#[test]
fn can_payload_up_to_eight_bytes_is_kept() {
    let mut f = HWCanFrame::new(0x100, &[]);
    assert_eq!(f.get_data(), &[] as &[u8]);
    assert_eq!(f.dlc(), 0);
    f.set_data(&[1, 2, 3, 4, 5, 6, 7, 8]);
    assert_eq!(f.get_data(), &[1, 2, 3, 4, 5, 6, 7, 8]);
    assert_eq!(f.dlc(), 8);
    f.set_data(&[9]);
    assert_eq!(f.get_data(), &[9]);
    assert_eq!(f.dlc(), 1);
}

#[test]
fn can_payload_over_eight_bytes_is_truncated() {
    let data: Vec<u8> = (0..11).collect();
    let f = HWCanFrame::new(0x7E0, &data);
    assert_eq!(f.get_data(), &data[0..8]);
    assert_eq!(f.dlc(), 8);
}

#[test]
fn can_extended_flag_follows_id() {
    let mut f = HWCanFrame::new(0x7FF, &[1]);
    assert!(!f.can_ext_addr());
    f.set_id(0x800);
    assert!(f.can_ext_addr());
    assert_eq!(f.get_id(), 0x800);
    f.set_id(0x7E8);
    assert!(!f.can_ext_addr());
    assert_eq!(f.get_data(), &[1]);
    let mut g = HWCanFrame::new(0x18DA10F1, &[]);
    assert!(g.can_ext_addr());
    g.set_data(&[1, 2, 3]);
    assert!(g.can_ext_addr());
}

#[test]
fn isotp_payload_is_not_truncated() {
    let data: Vec<u8> = (0..=255).collect();
    let mut f = HwIsoTpFrame::new(0x7E0, true, &data);
    assert_eq!(f.get_data(), &data[..]);
    assert!(f.isotp_ext_addr());
    assert!(!f.can_ext_addr());
    f.set_id(0x18DA10F1);
    assert!(f.can_ext_addr());
    assert!(f.isotp_ext_addr());
    f.set_data(&[]);
    assert_eq!(f.get_data(), &[] as &[u8]);
}

#[test]
fn kwp_frame_keeps_payload() {
    let data: Vec<u8> = vec![0x81; 40];
    let mut f = HwKwpFrame::new(0x10, &data);
    assert_eq!(f.get_data(), &data[..]);
    assert_eq!(f.get_id(), 0x10);
    f.set_id(0x11);
    assert_eq!(f.get_id(), 0x11);
}

#[test]
fn can_log_string() {
    let can = HWCanFrame::new(0x001C, &[0x00, 0x01, 0x0A, 0xFF]);
    assert_eq!(can.to_log_string(), "CanFrame - ID: 0x001C, Data: [00, 01, 0A, FF]");
    let big = HWCanFrame::new(0x18DA10F1, &[]);
    assert_eq!(big.to_log_string(), "CanFrame - ID: 0x18DA10F1, Data: []");
}

#[test]
fn isotp_log_string() {
    let f = HwIsoTpFrame::new(0x7E0, false, &[0x3E, 0x00]);
    assert_eq!(f.to_log_string(), "IsoTPFrame - ID: 0x07E0, Ext: false, Data: [3E, 00]");
}

#[test]
fn logger_lines() {
    let logger = Logger::new("Hardware");
    let can = HWCanFrame::new(0x1C, &[0x01]);
    assert_eq!(logger.log_object(&can), "[Hardware] DEBUG: CanFrame - ID: 0x001C, Data: [01]");
    assert_eq!(logger.line(LogLevel::Warn, "low voltage"), "[Hardware] WARN : low voltage");
    assert_eq!(logger.line(LogLevel::Info, "x"), "[Hardware] INFO : x");
    assert_eq!(logger.line(LogLevel::Error, "x"), "[Hardware] ERROR: x");
    assert_eq!(logger.line(LogLevel::Success, "x"), "[Hardware] OK   : x");
}
