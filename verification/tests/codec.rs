use echonet_lite::de::read::ReadBytesExt;
use echonet_lite::de::{deserialize, Deserializer, EchonetLiteRead, SliceReader};
use echonet_lite::el_packet::{
    bulk_read, prop, Edt, ElPacket, ElPacketBuilder, Properties, Property, ServiceCode,
};
use echonet_lite::endian::{
    i16_to_u16, i32_to_u32, i8_to_u8, u16_from_be_bytes, u16_to_be_bytes, u16_to_i16,
    u32_from_be_bytes, u32_to_be_bytes, u32_to_i32, u8_to_i8,
};
use echonet_lite::io::{Error as IoError, FixedBuffer, Read, Write};
use echonet_lite::object::EchonetObject;
use echonet_lite::ser::write::WriteBytesExt;
use echonet_lite::ser::{serialize, Encode, Serializer, Writer};
use echonet_lite::{ErrorKind, Primitive};

fn sample() -> ElPacket {
    ElPacketBuilder::new()
        .transaction_id(0x1234)
        .seoj([0x05u8, 0xFFu8, 0x01u8])
        .deoj([0x02u8, 0x88u8, 0x02u8])
        .esv(ServiceCode::SetC)
        .props(Properties(vec![
            prop(0x80, &[0x30]),
            prop(0xE7, &[0x00, 0x00, 0x01, 0xF4]),
            prop(0x9F, &[]),
        ]))
        .build()
}

fn sample_bytes() -> Vec<u8> {
    vec![
        0x10, 0x81, 0x12, 0x34, 0x05, 0xFF, 0x01, 0x02, 0x88, 0x02, 0x61, 0x03, 0x80, 0x01, 0x30,
        0xE7, 0x04, 0x00, 0x00, 0x01, 0xF4, 0x9F, 0x00,
    ]
}

fn kind<T>(r: Result<T, echonet_lite::Error>) -> ErrorKind {
    match r {
        Ok(_) => panic!("the operation was expected to fail"),
        Err(e) => *e,
    }
}

#[test]
fn packet_round_trip() {
    let packet = sample();
    let bytes = packet.serialize().unwrap();
    assert_eq!(bytes, sample_bytes());
    let (taken, back) = ElPacket::from_bytes(&bytes).unwrap();
    assert_eq!(taken, bytes.len());
    assert_eq!(back, packet);
}

#[test]
fn packet_without_properties_takes_twelve_bytes() {
    let packet = ElPacketBuilder::new()
        .transaction_id(0xFFFF)
        .esv(ServiceCode::Inf)
        .build();
    let bytes = packet.serialize().unwrap();
    assert_eq!(bytes, vec![0x10, 0x81, 0xFF, 0xFF, 0, 0, 0, 0, 0, 0, 0x73, 0]);
    let (taken, back) = ElPacket::from_bytes(&bytes).unwrap();
    assert_eq!(taken, 12);
    assert_eq!(back, packet);
}

#[test]
fn decoding_stops_at_the_end_of_the_packet() {
    let mut buffer = sample_bytes();
    let first_len = buffer.len();
    let second = ElPacketBuilder::new()
        .transaction_id(2)
        .esv(ServiceCode::Get)
        .props(bulk_read(&[0x80, 0x81]))
        .build();
    buffer.extend_from_slice(&second.serialize().unwrap());
    buffer.extend_from_slice(&[0xDE, 0xAD]);

    let (taken, first) = ElPacket::from_bytes(&buffer).unwrap();
    assert_eq!(taken, first_len);
    assert_eq!(first, sample());
    let (taken, next) = ElPacket::from_bytes(&buffer[first_len..]).unwrap();
    assert_eq!(taken, 16);
    assert_eq!(next, second);
}

#[test]
fn every_truncation_of_a_packet_fails_for_want_of_input() {
    let bytes = sample_bytes();
    for n in 0..bytes.len() {
        let r = ElPacket::from_bytes(&bytes[..n]);
        assert_eq!(kind(r), ErrorKind::Io(IoError::UnexpectedEof), "prefix of {} bytes", n);
    }
}

#[test]
fn packet_with_the_most_properties_round_trips() {
    let mut props = Vec::new();
    for i in 0..255u32 {
        props.push(prop(i as u8, &vec![i as u8; (i % 7) as usize]));
    }
    let packet = ElPacketBuilder::new()
        .esv(ServiceCode::GetRes)
        .props(Properties(props))
        .build();
    let bytes = packet.serialize().unwrap();
    assert_eq!(bytes[11], 255);
    let (taken, back) = ElPacket::from_bytes(&bytes).unwrap();
    assert_eq!(taken, bytes.len());
    assert_eq!(back, packet);
}

#[test]
fn blob_of_the_greatest_length_round_trips() {
    let edt = Edt(vec![0xA5; 255]);
    let bytes = serialize(&edt).unwrap();
    assert_eq!(bytes.len(), 256);
    assert_eq!(bytes[0], 255);
    let (taken, back): (usize, Edt) = deserialize(&bytes).unwrap();
    assert_eq!(taken, 256);
    assert_eq!(back, edt);
}

#[test]
fn length_byte_holds_the_low_eight_bits() {
    let edt = Edt(vec![7; 256]);
    let bytes = serialize(&edt).unwrap();
    assert_eq!(bytes.len(), 257);
    assert_eq!(bytes[0], 0);
    let edt = Edt(vec![7; 258]);
    assert_eq!(serialize(&edt).unwrap()[0], 2);
}

#[test]
fn empty_blob_takes_one_byte() {
    assert_eq!(serialize(&Edt(vec![])).unwrap(), vec![0x00]);
    assert_eq!(serialize(&prop(0x80, &[])).unwrap(), vec![0x80, 0x00]);
    assert_eq!(serialize(&Properties(vec![])).unwrap(), vec![0x00]);
    let (taken, edt): (usize, Edt) = deserialize(&[0x00, 0x55]).unwrap();
    assert_eq!((taken, edt), (1, Edt(vec![])));
}

#[test]
fn header_is_read_as_it_is_and_written_as_the_standard_pair() {
    let mut bytes = sample_bytes();
    bytes[0] = 0x20;
    bytes[1] = 0x82;
    let (_, packet) = ElPacket::from_bytes(&bytes).unwrap();
    assert_eq!((packet.ehd1, packet.ehd2), (0x20, 0x82));
    assert_eq!(packet.transaction_id, 0x1234);
    assert_eq!(packet.serialize().unwrap(), sample_bytes());
}

#[test]
fn service_codes_are_a_closed_set() {
    let all = [
        (0x50u8, ServiceCode::SetISNA, "SetISNA"),
        (0x51, ServiceCode::SetCSNA, "SetCSNA"),
        (0x52, ServiceCode::GetSNA, "GetSNA"),
        (0x53, ServiceCode::InfSNA, "InfSNA"),
        (0x5E, ServiceCode::SetGetSNA, "SetGetSNA"),
        (0x60, ServiceCode::SetI, "SetI"),
        (0x61, ServiceCode::SetC, "SetC"),
        (0x62, ServiceCode::Get, "Get"),
        (0x63, ServiceCode::InfReq, "InfReq"),
        (0x6E, ServiceCode::SetGet, "SetGet"),
        (0x71, ServiceCode::SetRes, "SetRes"),
        (0x72, ServiceCode::GetRes, "GetRes"),
        (0x73, ServiceCode::Inf, "Inf"),
        (0x74, ServiceCode::InfC, "InfC"),
        (0x7A, ServiceCode::InfCRes, "InfCRes"),
        (0x7E, ServiceCode::SetGetRes, "SetGetRes"),
    ];
    for byte in 0u8..=255 {
        let known = all.iter().find(|(code, _, _)| *code == byte);
        let r: Result<(usize, ServiceCode), _> = deserialize(&[byte]);
        match known {
            Some((code, esv, name)) => {
                assert_eq!(r.unwrap(), (1, *esv));
                assert_eq!(esv.to_u8(), *code);
                assert_eq!(ServiceCode::from_u8(byte), Some(*esv));
                assert_eq!(serialize(esv).unwrap(), vec![*code]);
                assert_eq!(esv.name(), *name);
            }
            None => {
                assert_eq!(kind(r), ErrorKind::InvalidTagEncoding(byte as usize));
                assert_eq!(ServiceCode::from_u8(byte), None);
            }
        }
    }
}

#[test]
fn invalid_service_code_fails_the_packet() {
    let mut bytes = sample_bytes();
    bytes[10] = 0xFF;
    assert_eq!(kind(ElPacket::from_bytes(&bytes)), ErrorKind::InvalidTagEncoding(0xFF));
    let r: Result<(usize, ServiceCode), _> = deserialize(&[0xFF]);
    assert_eq!(kind(r), ErrorKind::InvalidTagEncoding(255));
    let r: Result<(usize, ServiceCode), _> = deserialize(&[]);
    assert_eq!(kind(r), ErrorKind::Io(IoError::UnexpectedEof));
}

#[test]
fn response_correlation() {
    let req = sample();
    let other = EchonetObject::from([0x01, 0x30, 0x01]);

    let resp = req.create_response(ServiceCode::SetRes, bulk_read(&[0x80]));
    assert!(resp.is_response_for(&req));
    assert_eq!(resp.transaction_id, req.transaction_id);
    assert_eq!(resp.seoj, req.deoj);
    assert_eq!(resp.deoj, req.seoj);
    assert_eq!(resp.esv, ServiceCode::SetRes);
    assert_eq!(resp.props, bulk_read(&[0x80]));
    assert_eq!((resp.ehd1, resp.ehd2), (0x10, 0x81));

    let same_id_same_source = ElPacketBuilder::new()
        .transaction_id(0x1234)
        .seoj(req.deoj)
        .deoj(other)
        .esv(ServiceCode::Inf)
        .build();
    assert!(same_id_same_source.is_response_for(&req));

    let wrong_id = ElPacketBuilder::new()
        .transaction_id(0x1235)
        .seoj(req.deoj)
        .deoj(req.seoj)
        .esv(ServiceCode::SetRes)
        .build();
    assert!(!wrong_id.is_response_for(&req));

    let wrong_source = ElPacketBuilder::new()
        .transaction_id(0x1234)
        .seoj([0x02u8, 0x88u8, 0x03u8])
        .deoj(req.seoj)
        .esv(ServiceCode::SetRes)
        .build();
    assert!(!wrong_source.is_response_for(&req));
    assert!(!req.is_response_for(&req));
}

#[test]
fn builder_starts_empty() {
    let packet = ElPacketBuilder::new().esv(ServiceCode::Get).build();
    assert_eq!(packet.transaction_id, 0);
    assert_eq!(packet.seoj, EchonetObject::from([0, 0, 0]));
    assert_eq!(packet.deoj, EchonetObject::from([0, 0, 0]));
    assert_eq!(packet.props.num(), 0);
    let packet = ElPacketBuilder::default().esv(ServiceCode::Get).build();
    assert_eq!(packet.props, Properties::default());
}

#[test]
fn properties_accessors() {
    let props = bulk_read(&[0x80, 0x81, 0x82]);
    assert_eq!(props.num(), 3);
    assert_eq!(props.get(1), Some(&prop(0x81, &[])));
    assert_eq!(props.get(3), None);
    assert_eq!(props.len(), 3);
    let copy = props.clone();
    assert_eq!(copy, props);
    assert_eq!(Properties::from(vec![prop(1, &[2])]), Properties(vec![prop(1, &[2])]));
    let edt = Edt::new(vec![1, 2, 3]);
    assert_eq!(&edt[..], &[1, 2, 3]);
    assert_eq!(edt.clone(), edt);
    assert_eq!(Property::default(), prop(0, &[]));
    assert_eq!(sample().clone(), sample());
}

#[test]
fn integers_are_big_endian() {
    assert_eq!(u16_to_be_bytes(0x1234), [0x12, 0x34]);
    assert_eq!(u16_to_be_bytes(0x00FF), [0x00, 0xFF]);
    assert_eq!(u32_to_be_bytes(0x0102_0304), [1, 2, 3, 4]);
    assert_eq!(u32_to_be_bytes(0xFFFF_FFFE), [0xFF, 0xFF, 0xFF, 0xFE]);
    assert_eq!(u16_from_be_bytes(0x12, 0x34), 0x1234);
    assert_eq!(u32_from_be_bytes(1, 2, 3, 4), 0x0102_0304);
    for n in [0u16, 1, 255, 256, 0x7FFF, 0x8000, 0xFFFF] {
        assert_eq!(u16_to_be_bytes(n), n.to_be_bytes());
        let b = n.to_be_bytes();
        assert_eq!(u16_from_be_bytes(b[0], b[1]), n);
    }
    for n in [0u32, 1, 0xFF, 0x100, 0xFFFF, 0x1_0000, 0x7FFF_FFFF, 0x8000_0000, 0xFFFF_FFFF] {
        assert_eq!(u32_to_be_bytes(n), n.to_be_bytes());
        let b = n.to_be_bytes();
        assert_eq!(u32_from_be_bytes(b[0], b[1], b[2], b[3]), n);
    }
}

#[test]
fn signed_integers_are_twos_complement() {
    assert_eq!(i8_to_u8(-1), 0xFF);
    assert_eq!(i8_to_u8(-128), 0x80);
    assert_eq!(i16_to_u16(-2), 0xFFFE);
    assert_eq!(i32_to_u32(-1), 0xFFFF_FFFF);
    assert_eq!(u8_to_i8(0x80), -128);
    assert_eq!(u16_to_i16(0xFFFE), -2);
    assert_eq!(u32_to_i32(0x8000_0000), i32::MIN);
    for n in i8::MIN..=i8::MAX {
        assert_eq!(i8_to_u8(n), n as u8);
        assert_eq!(u8_to_i8(n as u8), n);
    }
    for n in [i16::MIN, -1, 0, 1, i16::MAX] {
        assert_eq!(i16_to_u16(n), n as u16);
        assert_eq!(u16_to_i16(n as u16), n);
    }
    for n in [i32::MIN, -1, 0, 1, i32::MAX] {
        assert_eq!(i32_to_u32(n), n as u32);
        assert_eq!(u32_to_i32(n as u32), n);
    }
}

#[test]
fn primitives_round_trip() {
    assert_eq!(serialize(&0xABu8).unwrap(), vec![0xAB]);
    assert_eq!(serialize(&-2i8).unwrap(), vec![0xFE]);
    assert_eq!(serialize(&0x0102u16).unwrap(), vec![1, 2]);
    assert_eq!(serialize(&-2i16).unwrap(), vec![0xFF, 0xFE]);
    assert_eq!(serialize(&0x01020304u32).unwrap(), vec![1, 2, 3, 4]);
    assert_eq!(serialize(&-2i32).unwrap(), vec![0xFF, 0xFF, 0xFF, 0xFE]);
    assert_eq!(serialize(&true).unwrap(), vec![1]);
    assert_eq!(serialize(&false).unwrap(), vec![0]);

    assert_eq!(deserialize::<u8>(&[0xAB, 9]).unwrap(), (1, 0xAB));
    assert_eq!(deserialize::<i8>(&[0xFE]).unwrap(), (1, -2));
    assert_eq!(deserialize::<u16>(&[1, 2, 9]).unwrap(), (2, 0x0102));
    assert_eq!(deserialize::<i16>(&[0xFF, 0xFE]).unwrap(), (2, -2));
    assert_eq!(deserialize::<u32>(&[1, 2, 3, 4, 9]).unwrap(), (4, 0x01020304));
    assert_eq!(deserialize::<i32>(&[0xFF, 0xFF, 0xFF, 0xFE]).unwrap(), (4, -2));
    assert_eq!(deserialize::<bool>(&[1]).unwrap(), (1, true));
    assert_eq!(deserialize::<bool>(&[0]).unwrap(), (1, false));
}

#[test]
fn primitives_fail_on_short_input() {
    assert_eq!(kind(deserialize::<u8>(&[])), ErrorKind::Io(IoError::UnexpectedEof));
    assert_eq!(kind(deserialize::<i8>(&[])), ErrorKind::Io(IoError::UnexpectedEof));
    assert_eq!(kind(deserialize::<u16>(&[1])), ErrorKind::Io(IoError::UnexpectedEof));
    assert_eq!(kind(deserialize::<i16>(&[1])), ErrorKind::Io(IoError::UnexpectedEof));
    assert_eq!(kind(deserialize::<u32>(&[1, 2, 3])), ErrorKind::Io(IoError::UnexpectedEof));
    assert_eq!(kind(deserialize::<i32>(&[1, 2, 3])), ErrorKind::Io(IoError::UnexpectedEof));
    assert_eq!(kind(deserialize::<bool>(&[])), ErrorKind::Io(IoError::UnexpectedEof));
    assert_eq!(kind(deserialize::<Edt>(&[])), ErrorKind::Io(IoError::UnexpectedEof));
    assert_eq!(kind(deserialize::<Edt>(&[2, 1])), ErrorKind::Io(IoError::UnexpectedEof));
    assert_eq!(kind(deserialize::<Property>(&[0x80])), ErrorKind::Io(IoError::UnexpectedEof));
    assert_eq!(
        kind(deserialize::<Properties>(&[2, 0x80, 0])),
        ErrorKind::Io(IoError::UnexpectedEof)
    );
    assert_eq!(
        kind(deserialize::<EchonetObject>(&[1, 2])),
        ErrorKind::Io(IoError::UnexpectedEof)
    );
}

#[test]
fn bool_is_zero_or_one() {
    assert_eq!(kind(deserialize::<bool>(&[2])), ErrorKind::InvalidBoolEncoding(2));
    assert_eq!(kind(deserialize::<bool>(&[0xFF])), ErrorKind::InvalidBoolEncoding(0xFF));
}

#[test]
fn serializer_primitives() {
    let mut ser = Serializer::new(Writer(Vec::new()));
    ser.serialize_unit().unwrap();
    ser.serialize_bool(true).unwrap();
    ser.serialize_u8(0x7F).unwrap();
    ser.serialize_i8(-1).unwrap();
    ser.serialize_u16(0xBEEF).unwrap();
    ser.serialize_i16(-256).unwrap();
    ser.serialize_u32(0xDEADBEEF).unwrap();
    ser.serialize_i32(-1).unwrap();
    ser.serialize_bytes(&[9, 8]).unwrap();
    ser.serialize_seq(Some(2)).unwrap();
    ser.serialize_element(&prop(0x80, &[1])).unwrap();
    ser.serialize_tuple(&[0x0102u16, 0x0304u16]).unwrap();
    assert_eq!(
        ser.into_inner().0,
        vec![
            1, 0x7F, 0xFF, 0xBE, 0xEF, 0xFF, 0x00, 0xDE, 0xAD, 0xBE, 0xEF, 0xFF, 0xFF, 0xFF, 0xFF,
            2, 9, 8, 2, 0x80, 1, 1, 1, 2, 3, 4
        ]
    );
}

#[test]
fn sequence_must_have_length() {
    let mut ser = Serializer::new(Writer(Vec::new()));
    ser.serialize_u8(1).unwrap();
    assert_eq!(kind(ser.serialize_seq(None)), ErrorKind::SequenceMustHaveLength);
    assert_eq!(ser.into_inner().0, vec![1]);
    let mut ser = Serializer::new(Writer(Vec::new()));
    ser.serialize_seq(Some(300)).unwrap();
    assert_eq!(ser.into_inner().0, vec![44]);
}

#[test]
fn kinds_without_an_encoding_are_refused() {
    let mut ser = Serializer::new(Writer(Vec::new()));
    assert_eq!(kind(ser.serialize_i64(1)), ErrorKind::NotSupported(Primitive::I64));
    assert_eq!(kind(ser.serialize_u64(1)), ErrorKind::NotSupported(Primitive::U64));
    assert_eq!(kind(ser.serialize_char('a')), ErrorKind::NotSupported(Primitive::Char));
    assert_eq!(kind(ser.serialize_str("a")), ErrorKind::NotSupported(Primitive::Str));
    assert_eq!(kind(ser.serialize_none()), ErrorKind::NotSupported(Primitive::Optional));
    assert_eq!(kind(ser.serialize_map(Some(1))), ErrorKind::NotSupported(Primitive::Mapping));
    assert!(ser.into_inner().0.is_empty());

    let input = [1u8, 2, 3];
    let mut de = Deserializer::new(SliceReader::new(&input));
    assert_eq!(kind(de.deserialize_any()), ErrorKind::DeserializeAnyNotSupported);
    assert_eq!(kind(de.deserialize_i64()), ErrorKind::NotSupported(Primitive::I64));
    assert_eq!(kind(de.deserialize_u64()), ErrorKind::NotSupported(Primitive::U64));
    assert_eq!(kind(de.deserialize_char()), ErrorKind::NotSupported(Primitive::Char));
    assert_eq!(kind(de.deserialize_string()), ErrorKind::NotSupported(Primitive::Str));
    assert_eq!(kind(de.deserialize_option()), ErrorKind::NotSupported(Primitive::Optional));
    assert_eq!(kind(de.deserialize_map()), ErrorKind::NotSupported(Primitive::Mapping));
    de.deserialize_unit().unwrap();
    assert_eq!(de.into_inner().len(), 3);
}

#[test]
fn deserializer_primitives_move_the_cursor() {
    let input = [
        1u8, 0x7F, 0xFF, 0xBE, 0xEF, 0xFF, 0x00, 0xDE, 0xAD, 0xBE, 0xEF, 0xFF, 0xFF, 0xFF, 0xFF, 2,
        9, 8, 2, 0x80, 1, 1, 0x81, 0, 1, 2, 3, 4, 0x55,
    ];
    let mut de = Deserializer::new(SliceReader::new(&input));
    assert_eq!(de.deserialize_bool().unwrap(), true);
    assert_eq!(de.deserialize_u8().unwrap(), 0x7F);
    assert_eq!(de.deserialize_i8().unwrap(), -1);
    assert_eq!(de.deserialize_u16().unwrap(), 0xBEEF);
    assert_eq!(de.deserialize_i16().unwrap(), -256);
    assert_eq!(de.deserialize_u32().unwrap(), 0xDEADBEEF);
    assert_eq!(de.deserialize_i32().unwrap(), -1);
    assert_eq!(de.deserialize_byte_buf().unwrap(), vec![9, 8]);
    assert_eq!(
        de.deserialize_seq::<Property>().unwrap(),
        vec![prop(0x80, &[1]), prop(0x81, &[])]
    );
    assert_eq!(de.deserialize_tuple::<u16>(2).unwrap(), vec![0x0102, 0x0304]);
    assert_eq!(de.into_inner().len(), 1);
}

#[test]
fn failed_decoding_takes_nothing() {
    let input = [2u8, 0x80, 1, 1, 0x81, 5, 1];
    let mut de = Deserializer::new(SliceReader::new(&input));
    assert_eq!(
        kind(de.deserialize_seq::<Property>()),
        ErrorKind::Io(IoError::UnexpectedEof)
    );
    assert_eq!(de.into_inner().len(), 7);

    let mut de = Deserializer::new(SliceReader::new(&input));
    assert_eq!(kind(de.deserialize_tuple::<u32>(2)), ErrorKind::Io(IoError::UnexpectedEof));
    assert_eq!(de.deserialize_tuple::<u32>(1).unwrap(), vec![0x02800101]);
    assert_eq!(kind(de.deserialize_u32()), ErrorKind::Io(IoError::UnexpectedEof));
    assert_eq!(de.deserialize_tuple::<u8>(0).unwrap(), Vec::<u8>::new());
    assert_eq!(de.into_inner().len(), 3);
}

#[test]
fn slice_reader_reads_exactly() {
    let input = [1u8, 2, 3, 4, 5, 6, 7];
    let mut reader = SliceReader::new(&input);
    assert_eq!(reader.len(), 7);
    assert_eq!(reader.read_exact(2), Ok(vec![1, 2]));
    assert_eq!(reader.read_exact(6), Err(IoError::UnexpectedEof));
    assert_eq!(reader.len(), 5);
    assert_eq!(reader.read_u8(), Ok(3));
    assert_eq!(reader.read_u16(), Ok(0x0405));
    assert_eq!(reader.read_u32(), Err(IoError::UnexpectedEof));
    assert_eq!(reader.read_i32(), Err(IoError::UnexpectedEof));
    assert_eq!(reader.get_byte_buffer(1).unwrap(), vec![6]);
    assert_eq!(kind(reader.get_byte_buffer(2)), ErrorKind::Io(IoError::UnexpectedEof));
    assert_eq!(reader.read_i8(), Ok(7));
    assert_eq!(reader.read_i16(), Err(IoError::UnexpectedEof));
    assert_eq!(reader.read_exact(0), Ok(vec![]));
    assert_eq!(reader.read_u8(), Err(IoError::UnexpectedEof));

    let wide = [0xFFu8, 0xFE, 0x80, 0, 0, 0, 0, 0, 0, 1];
    let mut reader = SliceReader::new(&wide);
    assert_eq!(reader.read_i16(), Ok(-2));
    assert_eq!(reader.read_i32(), Ok(i32::MIN));
    assert_eq!(reader.read_u32(), Ok(1));
}

#[test]
fn writer_takes_everything() {
    let mut writer = Writer(vec![0xAA]);
    writer.write_all(&[1, 2]).unwrap();
    writer.write_u8(3).unwrap();
    writer.write_i8(-3).unwrap();
    writer.write_u16(0x0405).unwrap();
    writer.write_i16(-2).unwrap();
    writer.write_u32(0x06070809).unwrap();
    writer.write_i32(-2).unwrap();
    writer.write_all(&[]).unwrap();
    assert_eq!(
        writer.0,
        vec![0xAA, 1, 2, 3, 0xFD, 4, 5, 0xFF, 0xFE, 6, 7, 8, 9, 0xFF, 0xFF, 0xFF, 0xFE]
    );
}

#[test]
fn fixed_buffer_keeps_the_prefix_that_fits() {
    let mut buffer = FixedBuffer::new(4);
    assert_eq!(buffer.write_all(&[1, 2, 3]), Ok(()));
    assert_eq!(buffer.as_slice(), &[1, 2, 3]);
    assert_eq!(buffer.write_all(&[4, 5]), Err(IoError::WriteZero));
    assert_eq!(buffer.as_slice(), &[1, 2, 3, 4]);
    assert_eq!(buffer.write_all(&[]), Ok(()));
    assert_eq!(buffer.write_u8(6), Err(IoError::WriteZero));
    assert_eq!(buffer.into_inner(), vec![1, 2, 3, 4]);

    let mut empty = FixedBuffer::new(0);
    assert_eq!(empty.write_all(&[]), Ok(()));
    assert_eq!(empty.write_u16(1), Err(IoError::WriteZero));
    assert_eq!(empty.into_inner(), Vec::<u8>::new());
}

#[test]
fn packet_into_a_full_sink_fails_with_the_prefix_written() {
    let packet = sample();
    let bytes = sample_bytes();
    for room in 0..=bytes.len() + 1 {
        let mut ser = Serializer::new(FixedBuffer::new(room));
        let r = packet.encode(&mut ser);
        let held = ser.into_inner().into_inner();
        if room >= bytes.len() {
            r.unwrap();
            assert_eq!(held, bytes);
        } else {
            assert_eq!(kind(r), ErrorKind::Io(IoError::WriteZero), "room for {} bytes", room);
            assert_eq!(held, bytes[..room].to_vec());
        }
    }
}

#[test]
fn io_error_becomes_an_error_of_the_codec() {
    let e: echonet_lite::Error = IoError::UnexpectedEof.into();
    assert_eq!(*e, ErrorKind::Io(IoError::UnexpectedEof));
    let e = echonet_lite::Error::from(IoError::WriteZero);
    assert_eq!(*e, ErrorKind::Io(IoError::WriteZero));
}
