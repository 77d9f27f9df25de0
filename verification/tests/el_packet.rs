use echonet_lite::de::deserialize;
use echonet_lite::el_packet::{
    Edt, ElPacket, ElPacketBuilder, Properties, Property, ServiceCode,
};
use echonet_lite::object::EchonetObject;

#[test]
fn el_packet_serialize() {
    let props = Properties(vec![Property {
        epc: 0x80,
        edt: Edt(vec![0x02]),
    }]);
    let result = ElPacketBuilder::new()
        .transaction_id(1)
        .esv(ServiceCode::Get)
        .seoj([0xefu8, 0xffu8, 0x01u8])
        .deoj([0x03u8, 0x08u8, 0x01u8])
        .props(props)
        .build()
        .serialize()
        .unwrap();
    assert_eq!(
        vec![0x10, 0x81, 0, 1, 0xef, 0xff, 0x01, 0x03, 0x08, 0x01, 0x62, 1, 0x80, 0x01, 0x02],
        result
    );
}

#[test]
fn el_packet_deserialize() {
    let input: Vec<u8> = vec![
        0x10, 0x81, 0, 1, 0xef, 0xff, 0x01, 0x03, 0x08, 0x01, 0x62, 1, 0x80, 0x01, 0x02,
    ];
    let (consumed, decoded): (usize, ElPacket) = ElPacket::from_bytes(&input).unwrap();

    let prop = Property {
        epc: 0x80,
        edt: Edt(vec![0x02]),
    };
    let expect = ElPacketBuilder::new()
        .transaction_id(1)
        .esv(ServiceCode::Get)
        .seoj([0xef, 0xff, 0x01])
        .deoj([0x03, 0x08, 0x01])
        .props(Properties(vec![prop]))
        .build();

    assert_eq!(15, consumed);
    assert_eq!(expect, decoded);
}

#[test]
fn el_packet_deserialize_tid() {
    let input = [0u8, 1u8];
    let (_, decoded): (usize, u16) = deserialize(&input).unwrap();

    assert_eq!(1, decoded);
}

#[test]
fn el_packet_deserialize_esv() {
    let input = [0x62u8];
    let (_, decoded): (usize, ServiceCode) = deserialize(&input).unwrap();

    assert_eq!(ServiceCode::Get, decoded);
}

#[test]
fn el_packet_deserialize_eoj() {
    let input = [0xefu8, 0xffu8, 0x01u8];
    let (_, decoded): (usize, EchonetObject) = deserialize(&input).unwrap();

    assert_eq!(EchonetObject::from([0xefu8, 0xffu8, 0x01u8]), decoded);
}

#[test]
fn el_packet_deserialize_edt() {
    let input: [u8; 2] = [0x01, 0x01];
    let (_, decoded): (usize, Edt) = deserialize(&input).unwrap();

    let expect = Edt(vec![0x01u8]);
    assert_eq!(expect, decoded);
}

#[test]
fn el_packet_deserialize_empty_edt() {
    let input: [u8; 1] = [0u8];
    let (_, decoded): (usize, Edt) = deserialize(&input).unwrap();

    let expect = Edt(vec![]);
    assert_eq!(expect, decoded);
}

#[test]
fn el_packet_deserialize_props() {
    let input: Vec<u8> = vec![1, 0x80, 0x01, 0x02];
    let (_, decoded): (usize, Properties) = deserialize(&input).unwrap();

    let expect = Properties(vec![Property {
        epc: 0x80,
        edt: Edt(vec![0x02]),
    }]);
    assert_eq!(expect, decoded);
}

#[test]
fn iter_properties() {
    let props = Properties(vec![Property {
        epc: 0x80,
        edt: Edt(vec![0x02]),
    }]);
    let expect = Property {
        epc: 0x80,
        edt: Edt(vec![0x02]),
    };
    assert_eq!(1usize, props.num());
    for prop in props.iter() {
        assert_eq!(expect, *prop);
    }
}
