use jett_studio::simconnect_ffi::{
    call_succeeded, fps_to_period, read_u32_le, read_u64_le, SIMCONNECT_PERIOD_SECOND,
    SIMCONNECT_PERIOD_SIM_FRAME, SIMCONNECT_PERIOD_VISUAL_FRAME, SIMCONNECT_RECV,
    SIMCONNECT_RECV_EVENT, SIMCONNECT_RECV_SIMOBJECT_DATA,
};

fn le(words: &[u32]) -> Vec<u8> {
    let mut out = Vec::new();
    for w in words {
        out.extend_from_slice(&w.to_le_bytes());
    }
    out
}

#[test]
fn fps_minus_one_polls_every_sim_frame() {
    assert_eq!(fps_to_period(-1), SIMCONNECT_PERIOD_SIM_FRAME);
    assert_eq!(fps_to_period(-1), 3);
}

#[test]
fn fps_zero_and_one_poll_every_second() {
    assert_eq!(fps_to_period(0), SIMCONNECT_PERIOD_SECOND);
    assert_eq!(fps_to_period(1), SIMCONNECT_PERIOD_SECOND);
    assert_eq!(fps_to_period(1), 4);
}

#[test]
fn other_fps_poll_every_visual_frame() {
    for fps in [2, 30, 60, -2, i32::MIN, i32::MAX] {
        assert_eq!(fps_to_period(fps), SIMCONNECT_PERIOD_VISUAL_FRAME);
    }
    assert_eq!(fps_to_period(60), 2);
}

#[test]
fn call_succeeds_only_with_ok_and_pointer() {
    assert!(call_succeeded(0, false));
    assert!(!call_succeeded(0, true));
    assert!(!call_succeeded(-2147467259, false));
    assert!(!call_succeeded(1, true));
}

#[test]
fn reads_little_endian_words() {
    let bytes = [0x78, 0x56, 0x34, 0x12, 0xff, 0xff, 0xff, 0xff, 0x01];
    assert_eq!(read_u32_le(&bytes, 0), 0x1234_5678);
    assert_eq!(read_u32_le(&bytes, 4), 0xffff_ffff);
    assert_eq!(read_u32_le(&bytes, 5), 0x01ff_ffff);
    assert_eq!(read_u64_le(&bytes, 0), 0xffff_ffff_1234_5678);
    assert_eq!(read_u64_le(&bytes, 1), 0x01ff_ffff_ff12_3456);
}

#[test]
fn reads_header_fields() {
    let bytes = le(&[24, 7, 4, 99]);
    let header = SIMCONNECT_RECV::read(&bytes).unwrap();
    let (size, version, id) = (header.dwSize, header.dwVersion, header.dwID);
    assert_eq!((size, version, id), (24, 7, 4));
}

#[test]
fn header_needs_twelve_bytes() {
    assert!(SIMCONNECT_RECV::read(&[0u8; 11]).is_none());
    assert!(SIMCONNECT_RECV::read(&[]).is_none());
    assert!(SIMCONNECT_RECV::read(&[0u8; 12]).is_some());
}

#[test]
fn reads_event_record() {
    let bytes = le(&[24, 1, 4, 0, 5, 1234]);
    let record = SIMCONNECT_RECV_EVENT::read(&bytes).unwrap();
    let (group, event, data) = (record.uGroupID, record.uEventID, record.dwData);
    assert_eq!((group, event, data), (0, 5, 1234));
    let id = record._base.dwID;
    assert_eq!(id, 4);
    assert!(SIMCONNECT_RECV_EVENT::read(&bytes[..23]).is_none());
}

#[test]
fn reads_simobject_data_record() {
    let bytes = le(&[48, 1, 8, 3, 0, 3, 0, 1, 1, 1, 0xdead_beef, 0x4000_0000]);
    let record = SIMCONNECT_RECV_SIMOBJECT_DATA::read(&bytes).unwrap();
    let (request, object, define) = (record.dwRequestID, record.dwObjectID, record.dwDefineID);
    assert_eq!((request, object, define), (3, 0, 3));
    let (count, data) = (record.dwDefineCount, record.dwData);
    assert_eq!((count, data), (1, 0xdead_beef));
    assert!(SIMCONNECT_RECV_SIMOBJECT_DATA::read(&bytes[..43]).is_none());
    assert!(SIMCONNECT_RECV_SIMOBJECT_DATA::read(&bytes[..44]).is_some());
}
