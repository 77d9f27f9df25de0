use echonet_lite::el_packet::{
    bulk_read, prop, Edt, ElPacketBuilder, Properties, ServiceCode,
};
use echonet_lite::io::Error as IoError;
use echonet_lite::object::packet::{ClassPacket, SmartMeterPacket};
use echonet_lite::object::{ClassCode, Controller, EchonetObject};
use echonet_lite::{ErrorKind, Primitive};

#[test]
fn packet_in_words() {
    let packet = ElPacketBuilder::new()
        .transaction_id(0x1234)
        .seoj([0x05u8, 0xFFu8, 0x01u8])
        .deoj([0x02u8, 0x88u8, 0x02u8])
        .esv(ServiceCode::SetC)
        .props(Properties(vec![
            prop(0x80, &[0x30]),
            prop(0xE7, &[0x00, 0x00, 0x01, 0xF4]),
            prop(0x9F, &[]),
        ]))
        .build();
    assert_eq!(
        packet.to_text(),
        "EHD: 1081\nTID: 4660\nSEOJ: Controller [05 FF 01]\nDEOJ: Smart meter [02 88 02]\n\
         ESV: 61 (SetC)\n80: 30 \nE7: 00 00 01 F4 \n9F: \n"
    );
    let empty = ElPacketBuilder::new().esv(ServiceCode::Inf).build();
    assert_eq!(
        empty.to_text(),
        "EHD: 1081\nTID: 0\nSEOJ: Unknown [00 00 00]\nDEOJ: Unknown [00 00 00]\nESV: 73 (Inf)\n"
    );
    let last = ElPacketBuilder::new()
        .transaction_id(65535)
        .esv(ServiceCode::SetGetRes)
        .build();
    assert!(last.to_text().contains("TID: 65535\n"));
    assert!(last.to_text().contains("ESV: 7E (SetGetRes)\n"));
}

#[test]
fn parts_in_words() {
    assert_eq!(Edt(vec![]).to_text(), "");
    assert_eq!(Edt(vec![0x00, 0x0A, 0xFF, 0x9C]).to_text(), "00 0A FF 9C ");
    assert_eq!(prop(0xD6, &[1, 2]).to_text(), "D6: 01 02 ");
    assert_eq!(prop(0x80, &[0x30]).to_named_text(Some("Operation status")), "80: 30 \t\t[Operation status]");
    assert_eq!(prop(0xFF, &[]).to_named_text(None), "FF: \t\t[unknown]");
    assert_eq!(bulk_read(&[0x80, 0x81]).to_text(), "80: \n81: \n");
    assert_eq!(Properties(vec![]).to_text(), "");
    assert_eq!(ServiceCode::Get.to_text(), "ESV: 62 (Get)");
    assert_eq!(ClassCode([0x0E, 0xF0]).to_text(), "0E F0");
    assert_eq!(
        EchonetObject::from([0x0E, 0xF0, 0x01]).to_text(),
        "Profile [0E F0 01]"
    );
    assert_eq!(
        EchonetObject::from([0xAB, 0xCD, 0xEF]).to_text(),
        "Unknown [AB CD EF]"
    );
    assert_eq!(Controller.to_text(), "Controller: 0x05FF");
}

#[test]
fn every_byte_in_hexadecimal() {
    for b in 0u8..=255 {
        assert_eq!(Edt(vec![b]).to_text(), format!("{:02X} ", b));
    }
}

#[test]
fn errors_in_words() {
    assert_eq!(
        ErrorKind::Io(IoError::UnexpectedEof).to_text(),
        "io error: unexpected end of file"
    );
    assert_eq!(
        ErrorKind::Io(IoError::WriteZero).to_text(),
        "io error: failed to write whole buffer"
    );
    assert_eq!(
        ErrorKind::InvalidBoolEncoding(7).to_text(),
        "InvalidBoolEncoding, expected 0 or 1, found 7"
    );
    assert_eq!(
        ErrorKind::InvalidTagEncoding(255).to_text(),
        "InvalidTagEncoding, found 255"
    );
    assert_eq!(
        ErrorKind::InvalidTagEncoding(1234567890).to_text(),
        "InvalidTagEncoding, found 1234567890"
    );
    assert_eq!(
        ErrorKind::DeserializeAnyNotSupported.to_text(),
        "DeserializeAnyNotSupported"
    );
    assert_eq!(ErrorKind::SequenceMustHaveLength.to_text(), "SequenceMustHaveLength");
    let kinds = [
        (Primitive::I64, "i64"),
        (Primitive::U64, "u64"),
        (Primitive::F32, "f32"),
        (Primitive::F64, "f64"),
        (Primitive::Char, "char"),
        (Primitive::Str, "str"),
        (Primitive::Optional, "Option"),
        (Primitive::Mapping, "map"),
    ];
    for (kind, name) in kinds {
        assert_eq!(kind.to_text(), name);
        assert_eq!(
            ErrorKind::NotSupported(kind).to_text(),
            format!("NotSupported, found {}", name)
        );
    }
}

#[test]
fn class_packet_heading() {
    let props = bulk_read(&[0xE7]);
    assert_eq!(
        ClassPacket::SmartMeter(SmartMeterPacket(props.clone())).heading(),
        "Smart Meter: 0x0288"
    );
    let cases: [([u8; 3], &str); 14] = [
        ([0x02, 0x79, 1], "House Hold Solar Power: 0x0279"),
        ([0x02, 0x7D, 1], "Storage Battery: 0x027D"),
        ([0x02, 0x7E, 1], "EVPS: 0x027E"),
        ([0x02, 0x6B, 1], "HP: 0x026B"),
        ([0x02, 0x88, 1], "Smart Meter: 0x0288"),
        ([0x01, 0x30, 1], "Home Air Conditioner: 0x0130"),
        ([0x02, 0x87, 1], "Power Distribution Board Metering: 0x0287"),
        ([0x02, 0x7C, 1], "Fuel Cell: 0x027C"),
        ([0x02, 0x72, 1], "Instantaneous Water Heater: 0x0272"),
        ([0x02, 0x90, 1], "General Lighting: 0x0290"),
        ([0x02, 0x91, 1], "Mono Function Lighting: 0x0291"),
        ([0x02, 0xA3, 1], "Lighting System: 0x02A3"),
        ([0x0E, 0xF0, 1], "Node Profile: 0x0EF0"),
        ([0x05, 0xFF, 1], "Unimplemented Class: 05 FF"),
    ];
    for (bytes, heading) in cases {
        let packet = ClassPacket::new(EchonetObject::from(bytes), props.clone());
        assert_eq!(packet.heading(), heading);
    }
}
