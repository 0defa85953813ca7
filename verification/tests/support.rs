use mdr_headphones::bytes::{makeword, u16_from_be, u32_from_be, u32_to_be};
use mdr_headphones::guid::{Guid, GuidExtension, GuidParseError};
use mdr_headphones::hex::{push_decimal, push_lower_hex, push_upper_hex, U8ArrayExtension};
use mdr_headphones::platforms::{BluetoothDeviceInfo, MacAddress};
use mdr_headphones::query::Optimistic;

#[test]
fn big_endian_integers() {
    assert_eq!(u16_from_be(0x12, 0x34), 0x1234);
    assert_eq!(u16_from_be(0xff, 0xff), 0xffff);
    assert_eq!(u32_from_be(0x12, 0x34, 0x56, 0x78), 0x12345678);
    assert_eq!(u32_from_be(0xff, 0xff, 0xff, 0xff), u32::MAX);
    assert_eq!(u32_to_be(0x12345678), [0x12, 0x34, 0x56, 0x78]);
    assert_eq!(u32_to_be(0), [0, 0, 0, 0]);
    assert_eq!(u32_to_be(u32::MAX), [0xff, 0xff, 0xff, 0xff]);
    for n in [0u32, 1, 255, 256, 65535, 65536, 0x00ff_00ff, 0x8000_0000, u32::MAX] {
        let bytes = u32_to_be(n);
        assert_eq!(bytes, n.to_be_bytes());
        assert_eq!(u32_from_be(bytes[0], bytes[1], bytes[2], bytes[3]), n);
    }
}

#[test]
fn makeword_puts_the_high_byte_first() {
    assert_eq!(makeword(0x34, 0x12), 0x1234);
    assert_eq!(makeword(0xff, 0x00), 0x00ff);
    assert_eq!(makeword(0x00, 0xff), 0xff00);
    assert_eq!(makeword(0x02, 0x02), 0x0202);
}

#[test]
fn hex_text_of_bytes() {
    assert_eq!([0x0au8, 0xff, 0x00].format_as_hex(), "0a ff 00");
    assert_eq!([0x3eu8].format_as_hex(), "3e");
    let empty: [u8; 0] = [];
    assert_eq!(empty.format_as_hex(), "");
    let all: Vec<u8> = (0..=255).collect();
    let expected: Vec<String> = all.iter().map(|byte| format!("{:02x}", byte)).collect();
    assert_eq!(all.format_as_hex(), expected.join(" "));
}

#[test]
fn hex_text_of_a_prefix() {
    let bytes = [0x01u8, 0x02, 0xab, 0xcd];
    assert_eq!(bytes.format_as_hex_with_lenght(0), "");
    assert_eq!(bytes.format_as_hex_with_lenght(1), "01");
    assert_eq!(bytes.format_as_hex_with_lenght(3), "01 02 ab");
    assert_eq!(bytes.format_as_hex_with_lenght(4), "01 02 ab cd");
}

#[test]
fn hex_pairs_in_both_cases() {
    let mut text = String::from(">");
    push_lower_hex(&mut text, 0xaf);
    push_upper_hex(&mut text, 0xaf);
    push_lower_hex(&mut text, 0x09);
    push_upper_hex(&mut text, 0x90);
    assert_eq!(text, ">afAF0990");
}

#[test]
fn mac_address_keeps_its_bytes() {
    let address = MacAddress::new(&[1, 2, 3, 4, 5, 0xab]);
    assert_eq!(address.octets(), [1, 2, 3, 4, 5, 0xab]);
}

#[test]
fn mac_address_as_a_number() {
    assert_eq!(MacAddress::new(&[1, 2, 3, 4, 5, 0xab]).to_u64(), 0xab05_0403_0201);
    assert_eq!(MacAddress::new(&[0xff; 6]).to_u64(), 0xffff_ffff_ffff);
    assert_eq!(MacAddress::new(&[0; 6]).to_u64(), 0);
}

#[test]
fn mac_address_as_text() {
    let address = MacAddress::new(&[1, 2, 3, 4, 5, 0xab]);
    assert_eq!(address.to_text(), "ab::05::04::03::02::01");
    assert_eq!(address.to_wire_text(), "AB:05:04:03:02:01");
    assert_eq!(address.to_wire_text().len(), 17);
}

#[test]
fn device_info_as_text() {
    let device = BluetoothDeviceInfo {
        name: String::from("WH-1000XM4"),
        address: MacAddress::new(&[0x10, 0x20, 0x30, 0x40, 0x50, 0x60]),
    };
    assert_eq!(device.to_text(), "WH-1000XM4 [60::50::40::30::20::10]");
}

#[test]
fn optimistic_without_a_value_is_pending() {
    let setting: Optimistic<u8> = Optimistic::new(None);
    assert!(setting.pending());
    assert_eq!(setting.get(), None);
}

#[test]
fn optimistic_with_a_value_is_settled() {
    let setting = Optimistic::new(Some(3u8));
    assert!(!setting.pending());
    assert_eq!(setting.get(), Some(3));
}

#[test]
fn optimistic_set_then_notify() {
    let mut setting = Optimistic::new(Some(String::from("off")));
    setting.set(String::from("on"));
    assert!(setting.pending());
    assert_eq!(setting.get(), Some(String::from("on")));
    setting.on_notify(String::from("off"));
    assert!(!setting.pending());
    assert_eq!(setting.get(), Some(String::from("off")));
}

#[test]
fn guid_in_canonical_form() {
    let guid = Guid::parse("00001101-0000-1000-8000-00805f9b34fb").unwrap();
    assert_eq!(
        guid,
        Guid {
            data1: 0x0000_1101,
            data2: 0x0000,
            data3: 0x1000,
            data4: [0x80, 0x00, 0x00, 0x80, 0x5f, 0x9b, 0x34, 0xfb],
        }
    );
}

#[test]
fn guid_digits_in_either_case() {
    let lower = Guid::parse("96cc203e-5068-46ad-b32d-e316f5e069ba").unwrap();
    let upper = Guid::parse("96CC203E-5068-46AD-B32D-E316F5E069BA").unwrap();
    assert_eq!(lower, upper);
    assert_eq!(lower.data1, 0x96cc_203e);
    assert_eq!(lower.data2, 0x5068);
    assert_eq!(lower.data3, 0x46ad);
    assert_eq!(lower.data4, [0xb3, 0x2d, 0xe3, 0x16, 0xf5, 0xe0, 0x69, 0xba]);
}

#[test]
fn guid_groups_may_be_cut_anywhere_between_bytes() {
    let plain = Guid::parse("000011010000100080000080-5f9b34fb").unwrap();
    assert_eq!(plain, Guid::parse("00001101-0000-1000-8000-00805f9b34fb").unwrap());
}

#[test]
fn short_guid_is_filled_with_zeros() {
    assert_eq!(
        Guid::parse("").unwrap(),
        Guid { data1: 0, data2: 0, data3: 0, data4: [0; 8] }
    );
    assert_eq!(
        Guid::parse("0102-0304-05").unwrap(),
        Guid { data1: 0x0102_0304, data2: 0x0500, data3: 0, data4: [0; 8] }
    );
    assert_eq!(
        Guid::parse("00000000-0000-0000-ff").unwrap(),
        Guid { data1: 0, data2: 0, data3: 0, data4: [0xff, 0, 0, 0, 0, 0, 0, 0] }
    );
}

#[test]
fn guid_errors() {
    assert_eq!(Guid::parse("zz"), Err(GuidParseError::InvalidHex));
    assert_eq!(Guid::parse("+f"), Err(GuidParseError::InvalidHex));
    assert_eq!(Guid::parse("0g"), Err(GuidParseError::InvalidHex));
    assert_eq!(Guid::parse("00 11"), Err(GuidParseError::InvalidHex));
    assert_eq!(Guid::parse("é0"), Err(GuidParseError::InvalidHex));
    assert_eq!(Guid::parse("123"), Err(GuidParseError::OddGroup));
    assert_eq!(Guid::parse("1-23"), Err(GuidParseError::OddGroup));
    assert_eq!(Guid::parse("0000110-10000"), Err(GuidParseError::OddGroup));
    assert_eq!(
        Guid::parse("00001101-0000-1000-8000-00805f9b34fb00"),
        Err(GuidParseError::TooLong)
    );
    // the first character that cannot be read decides
    assert_eq!(
        Guid::parse("00001101-0000-1000-8000-00805f9b34fb0z"),
        Err(GuidParseError::InvalidHex)
    );
    assert_eq!(Guid::parse("1-z"), Err(GuidParseError::OddGroup));
}

#[test]
fn decimal_text_of_bytes() {
    for byte in 0..=255u8 {
        let mut text = String::from("n=");
        push_decimal(&mut text, byte);
        assert_eq!(text, format!("n={}", byte));
    }
}
