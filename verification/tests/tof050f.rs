use maglev::tof050f::{auto_send_off_request, distance_raw, distance_request, mode_request};

fn modbus_crc(bytes: &[u8]) -> [u8; 2] {
    let mut c: u16 = 0xFFFF;
    for &b in bytes {
        c ^= b as u16;
        for _ in 0..8 {
            c = if c & 1 == 1 { (c >> 1) ^ 0xA001 } else { c >> 1 };
        }
    }
    [(c & 0xFF) as u8, (c >> 8) as u8]
}

#[test]
fn request_frames() {
    assert_eq!(mode_request(), [0x01, 0x06, 0x00, 0x04, 0x00, 0x01, 0x09, 0xCB]);
    assert_eq!(auto_send_off_request(), [0x01, 0x06, 0x00, 0x05, 0x00, 0x00, 0x99, 0xCB]);
    assert_eq!(distance_request(), [0x01, 0x03, 0x00, 0x10, 0x00, 0x01, 0x85, 0xCF]);
}

#[test]
fn request_frames_end_with_their_crc() {
    for f in [mode_request(), auto_send_off_request(), distance_request()] {
        assert_eq!(modbus_crc(&f[..6]), [f[6], f[7]]);
    }
}

#[test]
fn distance_from_reply() {
    assert_eq!(distance_raw(&[0x01, 0x03, 0x02, 0x12, 0x01, 0x00, 0x00]), 73);
    assert_eq!(distance_raw(&[0x01, 0x03, 0x02, 0x00, 0x00, 0x00, 0x00]), 0);
    assert_eq!(distance_raw(&[0x01, 0x03, 0x02, 0x01, 0x2C, 0xB8, 0x09]), 44);
    assert_eq!(distance_raw(&[0, 0, 0, 0xFF, 0xFF, 0, 0]), 1023);
}
