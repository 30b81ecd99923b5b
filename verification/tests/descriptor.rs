//! The device-descriptor record written during the handshake.

use selkies_gamepad::config::standard_xpad_config;
use selkies_gamepad::mapper::Mapper;
use selkies_gamepad::mapper::JSGamepadMapper;
use selkies_gamepad::server::GamepadServer;

fn standard_server() -> GamepadServer {
    GamepadServer::new(
        0,
        String::from("/tmp/selkies_js0.sock"),
        standard_xpad_config(),
        Mapper::Js(JSGamepadMapper),
    )
}

#[test]
fn descriptor_is_exactly_1353_bytes() {
    let s = standard_server();
    let bytes = s.make_config().to_bytes();
    assert_eq!(bytes.len(), 255 + 2 + 2 + 2 + 2 + 2 + 512 * 2 + 64);
}

#[test]
fn descriptor_name_is_nul_padded() {
    let s = standard_server();
    let bytes = s.make_config().to_bytes();
    let name = b"Selkies Controller";
    assert_eq!(&bytes[..name.len()], name);
    for i in name.len()..255 {
        assert_eq!(bytes[i], 0);
    }
}

#[test]
fn descriptor_identity_fields_are_little_endian() {
    let s = standard_server();
    let bytes = s.make_config().to_bytes();
    assert_eq!(&bytes[255..257], &0x045eu16.to_le_bytes());
    assert_eq!(&bytes[257..259], &0x028eu16.to_le_bytes());
    assert_eq!(&bytes[259..261], &1u16.to_le_bytes());
    assert_eq!(&bytes[261..263], &11u16.to_le_bytes());
    assert_eq!(&bytes[263..265], &8u16.to_le_bytes());
}

#[test]
fn descriptor_button_table_holds_codes_then_zeros() {
    let s = standard_server();
    let bytes = s.make_config().to_bytes();
    let codes: [u16; 11] = [
        0x130, 0x131, 0x133, 0x134, 0x136, 0x137, 0x13a, 0x13b, 0x13c, 0x13d, 0x13e,
    ];
    for (i, code) in codes.iter().enumerate() {
        let at = 265 + 2 * i;
        assert_eq!(&bytes[at..at + 2], &code.to_le_bytes());
    }
    for i in 11..512 {
        let at = 265 + 2 * i;
        assert_eq!(&bytes[at..at + 2], &[0, 0]);
    }
}

#[test]
fn descriptor_axis_table_is_byte_wide() {
    let s = standard_server();
    let bytes = s.make_config().to_bytes();
    let base = 265 + 1024;
    let codes: [u8; 8] = [0x00, 0x01, 0x02, 0x03, 0x04, 0x05, 0x10, 0x11];
    assert_eq!(&bytes[base..base + 8], &codes);
    for i in 8..64 {
        assert_eq!(bytes[base + i], 0);
    }
}

#[test]
fn long_name_is_truncated_silently() {
    let mut config = standard_xpad_config();
    config.name = "x".repeat(400);
    let s = GamepadServer::new(0, String::from("/tmp/p.sock"), config, Mapper::Js(JSGamepadMapper));
    let bytes = s.make_config().to_bytes();
    assert_eq!(bytes.len(), 1353);
    for i in 0..255 {
        assert_eq!(bytes[i], b'x');
    }
    assert_eq!(&bytes[255..257], &0x045eu16.to_le_bytes());
}

#[test]
fn full_capacity_tables_fill_the_record_exactly() {
    let mut config = standard_xpad_config();
    config.btn_map = (0..512u16).map(|i| 0x100 + i).collect();
    config.axes_map = (0..64u16).collect();
    let s = GamepadServer::new(0, String::from("/tmp/p.sock"), config, Mapper::Js(JSGamepadMapper));
    let bytes = s.make_config().to_bytes();
    assert_eq!(bytes.len(), 1353);
    assert_eq!(&bytes[261..263], &512u16.to_le_bytes());
    assert_eq!(&bytes[263..265], &64u16.to_le_bytes());
    assert_eq!(&bytes[265..267], &0x100u16.to_le_bytes());
    assert_eq!(&bytes[1287..1289], &(0x100u16 + 511).to_le_bytes());
    assert_eq!(bytes[1289], 0);
    assert_eq!(bytes[1352], 63);
}
