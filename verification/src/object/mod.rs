//! ECHONET objects and the device classes they belong to.

pub mod code;
pub mod packet;

use crate::codec::Codec;
use crate::de::{
    deserialize, eof, parse_n_bytes, views_of_bytes, Decode, Deserializer, EchonetLiteRead,
    Parsed,
};
use crate::error::{Error, Result};
use crate::io::Write;
use crate::ser::{emitted_stop, emitted_then, wire_all_bytes, Encode, Serializer};
use vstd::prelude::*;
use vstd::std_specs::convert::{FromSpecImpl, TryFromSpecImpl};

verus! {

/// The class of an ECHONET object: its class group code, then its class code.
#[derive(Debug, Clone, Copy, PartialEq, Eq, Default)]
pub struct ClassCode(pub [u8; 2]);

impl From<[u8; 2]> for ClassCode {
    fn from(value: [u8; 2]) -> (r: ClassCode) {
        ClassCode(value)
    }
}

impl FromSpecImpl<[u8; 2]> for ClassCode {
    open spec fn obeys_from_spec() -> bool {
        true
    }

    open spec fn from_spec(value: [u8; 2]) -> ClassCode {
        ClassCode(value)
    }
}

/// A device class, by name where the crate knows it.
///
/// The classification is open: a class code that has no name here is kept as
/// [`ElClass::Unknown`], with its two bytes.
#[derive(Debug, PartialEq, Eq, Copy, Clone)]
pub enum ElClass {
    /// Home air conditioner.
    HomeAC,
    /// Heat pump.
    Hp,
    /// Instantaneous water heater.
    InstantaneousWaterHeater,
    /// Household solar power generation.
    Pv,
    /// Fuel cell.
    FuelCell,
    /// Storage battery.
    Battery,
    /// Electric vehicle charger and discharger.
    Evps,
    /// Power distribution board metering.
    Metering,
    /// Low-voltage smart electric energy meter.
    SmartMeter,
    /// Multiple input power conditioning system.
    MultiInputPCS,
    /// General lighting.
    GeneralLighting,
    /// Mono functional lighting.
    MonoFunctionLighting,
    /// Lighting system.
    LightingSystem,
    /// Controller.
    Controller,
    /// Node profile.
    Profile,
    /// A class that has no name here, with its class code.
    Unknown([u8; 2]),
}

/// The class whose code is `group`, `class`.
pub open spec fn class_of(group: u8, class: u8) -> ElClass {
    if group == 0x01 && class == 0x30 {
        ElClass::HomeAC
    } else if group == 0x02 && class == 0x6B {
        ElClass::Hp
    } else if group == 0x02 && class == 0x72 {
        ElClass::InstantaneousWaterHeater
    } else if group == 0x02 && class == 0x79 {
        ElClass::Pv
    } else if group == 0x02 && class == 0x7C {
        ElClass::FuelCell
    } else if group == 0x02 && class == 0x7D {
        ElClass::Battery
    } else if group == 0x02 && class == 0x7E {
        ElClass::Evps
    } else if group == 0x02 && class == 0x87 {
        ElClass::Metering
    } else if group == 0x02 && class == 0x88 {
        ElClass::SmartMeter
    } else if group == 0x02 && class == 0xA5 {
        ElClass::MultiInputPCS
    } else if group == 0x02 && class == 0x90 {
        ElClass::GeneralLighting
    } else if group == 0x02 && class == 0x91 {
        ElClass::MonoFunctionLighting
    } else if group == 0x02 && class == 0xA3 {
        ElClass::LightingSystem
    } else if group == 0x05 && class == 0xFF {
        ElClass::Controller
    } else if group == 0x0E && class == 0xF0 {
        ElClass::Profile
    } else {
        ElClass::Unknown([group, class])
    }
}

/// The two bytes of the code of `class`.
pub open spec fn code_of(class: ElClass) -> (u8, u8) {
    match class {
        ElClass::HomeAC => (0x01, 0x30),
        ElClass::Hp => (0x02, 0x6B),
        ElClass::InstantaneousWaterHeater => (0x02, 0x72),
        ElClass::Pv => (0x02, 0x79),
        ElClass::FuelCell => (0x02, 0x7C),
        ElClass::Battery => (0x02, 0x7D),
        ElClass::Evps => (0x02, 0x7E),
        ElClass::Metering => (0x02, 0x87),
        ElClass::SmartMeter => (0x02, 0x88),
        ElClass::MultiInputPCS => (0x02, 0xA5),
        ElClass::GeneralLighting => (0x02, 0x90),
        ElClass::MonoFunctionLighting => (0x02, 0x91),
        ElClass::LightingSystem => (0x02, 0xA3),
        ElClass::Controller => (0x05, 0xFF),
        ElClass::Profile => (0x0E, 0xF0),
        ElClass::Unknown(raw) => (raw[0], raw[1]),
    }
}

impl ElClass {
    /// The name of the class in words; "Unknown" for a class that has no
    /// name here.
    pub open spec fn name_of(self) -> Seq<char> {
        match self {
            ElClass::HomeAC => "Home AC"@,
            ElClass::Hp => "Heat pump"@,
            ElClass::InstantaneousWaterHeater => "Instantaneous water heater"@,
            ElClass::Pv => "Household solar power"@,
            ElClass::FuelCell => "Fuel cell"@,
            ElClass::Battery => "Storage battery"@,
            ElClass::Evps => "V2H"@,
            ElClass::Metering => "Power distribution Metering"@,
            ElClass::SmartMeter => "Smart meter"@,
            ElClass::MultiInputPCS => "Multi input PCS"@,
            ElClass::GeneralLighting => "General lighting"@,
            ElClass::MonoFunctionLighting => "Mono function lighting"@,
            ElClass::LightingSystem => "Lighting system"@,
            ElClass::Controller => "Controller"@,
            ElClass::Profile => "Profile"@,
            ElClass::Unknown(_) => "Unknown"@,
        }
    }

    /// The name of the class in words, for display.
    pub fn name(&self) -> (r: &'static str)
        ensures
            r@ == self.name_of(),
    {
        match self {
            ElClass::HomeAC => "Home AC",
            ElClass::Hp => "Heat pump",
            ElClass::InstantaneousWaterHeater => "Instantaneous water heater",
            ElClass::Pv => "Household solar power",
            ElClass::FuelCell => "Fuel cell",
            ElClass::Battery => "Storage battery",
            ElClass::Evps => "V2H",
            ElClass::Metering => "Power distribution Metering",
            ElClass::SmartMeter => "Smart meter",
            ElClass::MultiInputPCS => "Multi input PCS",
            ElClass::GeneralLighting => "General lighting",
            ElClass::MonoFunctionLighting => "Mono function lighting",
            ElClass::LightingSystem => "Lighting system",
            ElClass::Controller => "Controller",
            ElClass::Profile => "Profile",
            ElClass::Unknown(_) => "Unknown",
        }
    }

    /// Whether the class is written the one way that reading a class code
    /// gives: no `Unknown` that carries the code of a named class.
    pub open spec fn is_canonical(self) -> bool {
        self matches ElClass::Unknown(raw) ==> class_of(raw[0], raw[1]) is Unknown
    }
}

impl From<&[u8; 2]> for ElClass {
    fn from(value: &[u8; 2]) -> (r: ElClass) {
        let group: u8 = value[0];
        let class: u8 = value[1];
        if group == code::HOME_AIR_CONDITIONER[0] && class == code::HOME_AIR_CONDITIONER[1] {
            ElClass::HomeAC
        } else if group == code::HP[0] && class == code::HP[1] {
            ElClass::Hp
        } else if group == code::INSTANTANEOUS_WATER_HEATER[0] && class
            == code::INSTANTANEOUS_WATER_HEATER[1] {
            ElClass::InstantaneousWaterHeater
        } else if group == code::HOUSEHOLD_SOLAR_POWER[0] && class
            == code::HOUSEHOLD_SOLAR_POWER[1] {
            ElClass::Pv
        } else if group == code::FUEL_CELL[0] && class == code::FUEL_CELL[1] {
            ElClass::FuelCell
        } else if group == code::STORAGE_BATTERY[0] && class == code::STORAGE_BATTERY[1] {
            ElClass::Battery
        } else if group == code::EVPS[0] && class == code::EVPS[1] {
            ElClass::Evps
        } else if group == code::POWER_DISTRIBUTION_BOARD_METERING[0] && class
            == code::POWER_DISTRIBUTION_BOARD_METERING[1] {
            ElClass::Metering
        } else if group == code::SMART_METER[0] && class == code::SMART_METER[1] {
            ElClass::SmartMeter
        } else if group == code::MULTI_INPUT_PCS[0] && class == code::MULTI_INPUT_PCS[1] {
            ElClass::MultiInputPCS
        } else if group == code::GENERAL_LIGHTING[0] && class == code::GENERAL_LIGHTING[1] {
            ElClass::GeneralLighting
        } else if group == code::MONO_FUNCTION_LIGHTING[0] && class
            == code::MONO_FUNCTION_LIGHTING[1] {
            ElClass::MonoFunctionLighting
        } else if group == code::LIGHTING_SYSTEM[0] && class == code::LIGHTING_SYSTEM[1] {
            ElClass::LightingSystem
        } else if group == code::CONTROLLER[0] && class == code::CONTROLLER[1] {
            ElClass::Controller
        } else if group == code::PROFILE[0] && class == code::PROFILE[1] {
            ElClass::Profile
        } else {
            ElClass::Unknown([group, class])
        }
    }
}

impl FromSpecImpl<&[u8; 2]> for ElClass {
    open spec fn obeys_from_spec() -> bool {
        true
    }

    open spec fn from_spec(value: &[u8; 2]) -> ElClass {
        class_of(value[0], value[1])
    }
}

impl From<ElClass> for [u8; 2] {
    fn from(class: ElClass) -> (r: [u8; 2]) {
        match class {
            ElClass::HomeAC => code::HOME_AIR_CONDITIONER,
            ElClass::Hp => code::HP,
            ElClass::InstantaneousWaterHeater => code::INSTANTANEOUS_WATER_HEATER,
            ElClass::Pv => code::HOUSEHOLD_SOLAR_POWER,
            ElClass::FuelCell => code::FUEL_CELL,
            ElClass::Battery => code::STORAGE_BATTERY,
            ElClass::Evps => code::EVPS,
            ElClass::Metering => code::POWER_DISTRIBUTION_BOARD_METERING,
            ElClass::SmartMeter => code::SMART_METER,
            ElClass::MultiInputPCS => code::MULTI_INPUT_PCS,
            ElClass::GeneralLighting => code::GENERAL_LIGHTING,
            ElClass::MonoFunctionLighting => code::MONO_FUNCTION_LIGHTING,
            ElClass::LightingSystem => code::LIGHTING_SYSTEM,
            ElClass::Controller => code::CONTROLLER,
            ElClass::Profile => code::PROFILE,
            ElClass::Unknown(raw) => [raw[0], raw[1]],
        }
    }
}

impl FromSpecImpl<ElClass> for [u8; 2] {
    open spec fn obeys_from_spec() -> bool {
        true
    }

    open spec fn from_spec(class: ElClass) -> [u8; 2] {
        [code_of(class).0, code_of(class).1]
    }
}

impl View for ElClass {
    type V = ElClass;

    open spec fn view(&self) -> ElClass {
        *self
    }
}

impl Encode for ElClass {
    open spec fn encodable(v: ElClass) -> bool {
        v.is_canonical()
    }

    open spec fn wire(v: ElClass) -> Seq<u8> {
        seq![code_of(v).0, code_of(v).1]
    }

    fn encode<W: Write>(&self, ser: &mut Serializer<W>) -> (r: Result<()>) {
        let raw: [u8; 2] = <[u8; 2]>::from(*self);
        proof {
            views_of_bytes(raw@);
            wire_all_bytes(raw@);
            assert(raw@ =~= Self::wire(*self));
        }
        ser.serialize_tuple(raw.as_slice())
    }
}

impl Decode for ElClass {
    open spec fn parse(bytes: Seq<u8>) -> Parsed<ElClass> {
        if bytes.len() >= 2 {
            Ok((class_of(bytes[0], bytes[1]), 2))
        } else {
            eof()
        }
    }

    fn decode<R: EchonetLiteRead>(de: &mut Deserializer<R>) -> (r: Result<ElClass>) {
        proof {
            parse_n_bytes(de.remaining(), 2);
        }
        let raw: Vec<u8> = de.deserialize_tuple::<u8>(2)?;
        proof {
            views_of_bytes(raw@);
        }
        let code: [u8; 2] = [raw[0], raw[1]];
        Ok(ElClass::from(&code))
    }
}

impl Codec for ElClass {
    proof fn round_trip(v: ElClass, rest: Seq<u8>) {
        class_round_trip(v);
    }

    proof fn truncated(v: ElClass, n: int) {
    }
}

/// The code of the class that a code stands for is that code: reading a
/// class code never loses it, named or not.
pub proof fn code_round_trip(group: u8, class: u8)
    ensures
        code_of(class_of(group, class)) == (group, class),
{
}

/// The class that the code of a class stands for is that class, for every
/// class in canonical form.
pub proof fn class_round_trip(class: ElClass)
    requires
        class.is_canonical(),
    ensures
        class_of(code_of(class).0, code_of(class).1) == class,
{
    match class {
        ElClass::Unknown(raw) => {
            assert([raw[0], raw[1]] =~= raw);
        },
        _ => {},
    }
}

/// An ECHONET object: a device class and the number of an instance of it.
#[derive(Debug, Clone, Copy, PartialEq, Default)]
pub struct EchonetObject {
    /// The class of the object.
    pub class: ClassCode,
    /// Which object of that class it is.
    pub instance: u8,
}

impl EchonetObject {
    /// The object whose three bytes are `group`, `class`, `instance`.
    pub open spec fn of(group: u8, class: u8, instance: u8) -> EchonetObject {
        EchonetObject { class: ClassCode([group, class]), instance }
    }

    /// The three bytes of the object: class group code, class code,
    /// instance code.
    pub open spec fn bytes(self) -> Seq<u8> {
        seq![self.class.0[0], self.class.0[1], self.instance]
    }

    /// The name of the class of the object, for display.
    pub fn class_name(&self) -> (r: &'static str)
        ensures
            r@ == class_of(self.class.0[0], self.class.0[1]).name_of(),
    {
        ElClass::from(*self).name()
    }

    /// An object is its three bytes.
    pub proof fn of_bytes(self)
        ensures
            EchonetObject::of(self.class.0[0], self.class.0[1], self.instance) == self,
    {
        assert([self.class.0[0], self.class.0[1]] =~= self.class.0);
    }
}

impl View for EchonetObject {
    type V = EchonetObject;

    open spec fn view(&self) -> EchonetObject {
        *self
    }
}

impl From<[u8; 3]> for EchonetObject {
    fn from(eobj: [u8; 3]) -> (r: EchonetObject) {
        EchonetObject { class: ClassCode([eobj[0], eobj[1]]), instance: eobj[2] }
    }
}

impl FromSpecImpl<[u8; 3]> for EchonetObject {
    open spec fn obeys_from_spec() -> bool {
        true
    }

    open spec fn from_spec(eobj: [u8; 3]) -> EchonetObject {
        EchonetObject::of(eobj[0], eobj[1], eobj[2])
    }
}

impl From<(ElClass, u8)> for EchonetObject {
    fn from(value: (ElClass, u8)) -> (r: EchonetObject) {
        let (class, instance) = value;
        let code: [u8; 2] = <[u8; 2]>::from(class);
        EchonetObject { class: ClassCode([code[0], code[1]]), instance }
    }
}

impl FromSpecImpl<(ElClass, u8)> for EchonetObject {
    open spec fn obeys_from_spec() -> bool {
        true
    }

    open spec fn from_spec(value: (ElClass, u8)) -> EchonetObject {
        EchonetObject::of(code_of(value.0).0, code_of(value.0).1, value.1)
    }
}

impl From<EchonetObject> for ElClass {
    fn from(value: EchonetObject) -> (r: ElClass) {
        ElClass::from(&value.class.0)
    }
}

impl FromSpecImpl<EchonetObject> for ElClass {
    open spec fn obeys_from_spec() -> bool {
        true
    }

    open spec fn from_spec(value: EchonetObject) -> ElClass {
        class_of(value.class.0[0], value.class.0[1])
    }
}

impl Encode for EchonetObject {
    open spec fn encodable(v: EchonetObject) -> bool {
        true
    }

    open spec fn wire(v: EchonetObject) -> Seq<u8> {
        v.bytes()
    }

    fn encode<W: Write>(&self, ser: &mut Serializer<W>) -> (r: Result<()>) {
        let ghost pre = ser.sink();
        let ghost code = self.class.0@;
        proof {
            views_of_bytes(code);
            wire_all_bytes(code);
            assert(code + seq![self.instance] =~= self.bytes());
        }
        match ser.serialize_tuple(self.class.0.as_slice()) {
            Ok(()) => {},
            Err(e) => {
                proof {
                    emitted_stop(pre, ser.sink(), code, seq![self.instance], Err(e));
                }
                return Err(e);
            },
        }
        let ghost mid = ser.sink();
        let r = ser.serialize_u8(self.instance);
        proof {
            emitted_then(pre, mid, ser.sink(), code, seq![self.instance], r);
        }
        r
    }
}

impl Decode for EchonetObject {
    open spec fn parse(bytes: Seq<u8>) -> Parsed<EchonetObject> {
        if bytes.len() >= 3 {
            Ok((EchonetObject::of(bytes[0], bytes[1], bytes[2]), 3))
        } else {
            eof()
        }
    }

    fn decode<R: EchonetLiteRead>(de: &mut Deserializer<R>) -> (r: Result<EchonetObject>) {
        let ghost start = de.remaining();
        let mut cursor: Deserializer<R> = *de;
        proof {
            parse_n_bytes(start, 2);
        }
        let class: Vec<u8> = cursor.deserialize_tuple::<u8>(2)?;
        let instance: u8 = cursor.deserialize_u8()?;
        proof {
            views_of_bytes(class@);
            assert(start.skip(2).skip(1) =~= start.skip(3));
        }
        *de = cursor;
        Ok(EchonetObject { class: ClassCode([class[0], class[1]]), instance })
    }
}

impl Codec for EchonetObject {
    proof fn round_trip(v: EchonetObject, rest: Seq<u8>) {
        v.of_bytes();
    }

    proof fn truncated(v: EchonetObject, n: int) {
    }
}

impl TryFrom<&[u8]> for EchonetObject {
    type Error = Error;

    fn try_from(value: &[u8]) -> (r: Result<EchonetObject>) {
        let (_, eobj) = deserialize::<EchonetObject>(value)?;
        proof {
            eobj.of_bytes();
        }
        Ok(eobj)
    }
}

impl TryFromSpecImpl<&[u8]> for EchonetObject {
    open spec fn obeys_try_from_spec() -> bool {
        true
    }

    open spec fn try_from_spec(value: &[u8]) -> Result<EchonetObject> {
        if value@.len() >= 3 {
            Ok(EchonetObject::of(value@[0], value@[1], value@[2]))
        } else {
            Err(Box::new(crate::error::ErrorKind::Io(crate::io::Error::UnexpectedEof)))
        }
    }
}

/// The controller class.
#[derive(Debug, Clone, Copy, PartialEq, Eq)]
pub struct Controller;

impl Controller {
    /// The class code of controllers.
    pub fn class_code() -> (r: [u8; 2])
        ensures
            (r[0], r[1]) == code_of(ElClass::Controller),
    {
        code::CONTROLLER
    }
}

} // verus!
