use echonet_lite::de::deserialize;
use echonet_lite::object::{ClassCode, EchonetObject, ElClass};
use echonet_lite::ser::serialize;

#[test]
fn to_elclass() {
    let eobj = EchonetObject::from([0x01, 0x30, 0x01]);
    let class = ElClass::from(eobj);
    assert_eq!(class, ElClass::HomeAC);

    let raw = [0x01u8, 0x30u8];
    let class = ElClass::from(&raw);
    assert_eq!(class, ElClass::HomeAC);
}

#[test]
fn to_echonet_object() {
    let class = ElClass::HomeAC;
    let eobj: EchonetObject = (class, 1u8).into();
    assert_eq!(
        eobj,
        EchonetObject {
            class: ClassCode([0x01, 0x30]),
            instance: 1
        }
    );
}

#[test]
fn serialize_el_class() {
    let class = ElClass::HomeAC;
    let bytes = serialize(&class).unwrap();
    assert_eq!(bytes, vec![0x01, 0x30]);
}

#[test]
fn deserialize_el_class() {
    let input = [0x01, 0x30];
    let (bytes_read, class): (usize, ElClass) = deserialize(&input).unwrap();
    assert_eq!(bytes_read, 2);
    assert_eq!(class, ElClass::HomeAC);
}

#[test]
fn conversion() {
    let obj: EchonetObject = [0x05, 0xFE, 0x01].into();
    let class: ElClass = ElClass::from(&obj.class.0);
    assert_eq!(class, ElClass::Unknown([0x05, 0xFE]));
    let class: ElClass = obj.into();
    assert_eq!(class, ElClass::Unknown([0x05, 0xFE]));
}

#[test]
fn controller_class() {
    let obj: EchonetObject = [0x05, 0xFF, 0x01].into();
    let class: ElClass = obj.into();
    assert_eq!(class, ElClass::Controller);
    assert_eq!(echonet_lite::object::Controller::class_code(), [0x05, 0xFF]);
    assert_eq!(obj.class_name(), "Controller");
}

#[test]
fn every_named_class_survives_its_code() {
    let named = [
        (ElClass::HomeAC, [0x01u8, 0x30u8], "Home AC"),
        (ElClass::Hp, [0x02, 0x6B], "Heat pump"),
        (ElClass::InstantaneousWaterHeater, [0x02, 0x72], "Instantaneous water heater"),
        (ElClass::Pv, [0x02, 0x79], "Household solar power"),
        (ElClass::FuelCell, [0x02, 0x7C], "Fuel cell"),
        (ElClass::Battery, [0x02, 0x7D], "Storage battery"),
        (ElClass::Evps, [0x02, 0x7E], "V2H"),
        (ElClass::Metering, [0x02, 0x87], "Power distribution Metering"),
        (ElClass::SmartMeter, [0x02, 0x88], "Smart meter"),
        (ElClass::MultiInputPCS, [0x02, 0xA5], "Multi input PCS"),
        (ElClass::GeneralLighting, [0x02, 0x90], "General lighting"),
        (ElClass::MonoFunctionLighting, [0x02, 0x91], "Mono function lighting"),
        (ElClass::LightingSystem, [0x02, 0xA3], "Lighting system"),
        (ElClass::Controller, [0x05, 0xFF], "Controller"),
        (ElClass::Profile, [0x0E, 0xF0], "Profile"),
    ];
    for (class, code, name) in named {
        let raw: [u8; 2] = class.into();
        assert_eq!(raw, code);
        assert_eq!(ElClass::from(&code), class);
        assert_eq!(class.name(), name);
        let obj: EchonetObject = (class, 7u8).into();
        assert_eq!(obj, EchonetObject::from([code[0], code[1], 7]));
    }
}

#[test]
fn every_class_code_survives_classification() {
    for group in 0u8..=255 {
        for class in 0u8..=255 {
            let raw = [group, class];
            let back: [u8; 2] = ElClass::from(&raw).into();
            assert_eq!(back, raw);
        }
    }
}

#[test]
fn unknown_class_keeps_its_bytes() {
    let input = [0x7Fu8, 0x01u8, 0x09u8];
    let (taken, obj): (usize, EchonetObject) = deserialize(&input).unwrap();
    assert_eq!(taken, 3);
    assert_eq!(ElClass::from(obj), ElClass::Unknown([0x7F, 0x01]));
    assert_eq!(obj.class_name(), "Unknown");
    assert_eq!(serialize(&obj).unwrap(), vec![0x7F, 0x01, 0x09]);

    let (taken, class): (usize, ElClass) = deserialize(&input).unwrap();
    assert_eq!(taken, 2);
    assert_eq!(class, ElClass::Unknown([0x7F, 0x01]));
    assert_eq!(serialize(&class).unwrap(), vec![0x7F, 0x01]);
}

#[test]
fn object_from_short_slice_fails() {
    let short: &[u8] = &[0x01, 0x30];
    let r = EchonetObject::try_from(short);
    assert!(matches!(
        r.map_err(|e| *e),
        Err(echonet_lite::ErrorKind::Io(echonet_lite::io::Error::UnexpectedEof))
    ));
    let full: &[u8] = &[0x01, 0x30, 0x02, 0xAA];
    assert_eq!(
        EchonetObject::try_from(full).unwrap(),
        EchonetObject::from([0x01, 0x30, 0x02])
    );
}
