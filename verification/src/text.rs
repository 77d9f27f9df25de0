//! Text for people: packets and their parts in words and hexadecimal.
//!
//! For each type a spec function says what its text is, and a method
//! `to_text` writes it.

use crate::el_packet::{Edt, ElPacket, ElPacketView, Properties, Property, PropertyView, ServiceCode};
use crate::error::{ErrorKind, Primitive};
use crate::io;
use crate::object::packet::{class_of_code, ClassPacket};
use crate::object::{code_of, ClassCode, Controller, EchonetObject, ElClass};
use vstd::prelude::*;
use vstd::string::StringExecFns;

verus! {

/// The hexadecimal digit for `n`, in upper case.
pub open spec fn hex_digit(n: int) -> Seq<char> {
    if n == 0 {
        "0"@
    } else if n == 1 {
        "1"@
    } else if n == 2 {
        "2"@
    } else if n == 3 {
        "3"@
    } else if n == 4 {
        "4"@
    } else if n == 5 {
        "5"@
    } else if n == 6 {
        "6"@
    } else if n == 7 {
        "7"@
    } else if n == 8 {
        "8"@
    } else if n == 9 {
        "9"@
    } else if n == 10 {
        "A"@
    } else if n == 11 {
        "B"@
    } else if n == 12 {
        "C"@
    } else if n == 13 {
        "D"@
    } else if n == 14 {
        "E"@
    } else {
        "F"@
    }
}

/// The two hexadecimal digits of `b`.
pub open spec fn hex_byte(b: u8) -> Seq<char> {
    hex_digit(b as int / 16) + hex_digit(b as int % 16)
}

/// `n` in decimal digits.
pub open spec fn decimal(n: nat) -> Seq<char>
    decreases n,
{
    if n < 10 {
        hex_digit(n as int)
    } else {
        decimal(n / 10) + hex_digit((n % 10) as int)
    }
}

/// The digit for `n`, which is less than sixteen.
fn digit(n: u8) -> (r: &'static str)
    requires
        n < 16,
    ensures
        r@ == hex_digit(n as int),
{
    match n {
        0 => "0",
        1 => "1",
        2 => "2",
        3 => "3",
        4 => "4",
        5 => "5",
        6 => "6",
        7 => "7",
        8 => "8",
        9 => "9",
        10 => "A",
        11 => "B",
        12 => "C",
        13 => "D",
        14 => "E",
        _ => "F",
    }
}

/// Appends the two hexadecimal digits of `b`.
fn push_hex(out: &mut String, b: u8)
    ensures
        final(out)@ == old(out)@ + hex_byte(b),
{
    out.append(digit(b / 16));
    out.append(digit(b % 16));
    assert(out@ =~= old(out)@ + hex_byte(b));
}

/// Appends `n` in decimal digits.
fn push_decimal(out: &mut String, n: usize)
    ensures
        final(out)@ == old(out)@ + decimal(n as nat),
    decreases n,
{
    if n >= 10 {
        push_decimal(out, n / 10);
    }
    out.append(digit((n % 10) as u8));
    assert(out@ =~= old(out)@ + decimal(n as nat));
}

/// The text of the bytes of a property value: each byte in hexadecimal,
/// with a space behind it.
pub open spec fn edt_text(bytes: Seq<u8>) -> Seq<char>
    decreases bytes.len(),
{
    if bytes.len() == 0 {
        Seq::empty()
    } else {
        edt_text(bytes.drop_last()) + hex_byte(bytes.last()) + " "@
    }
}

/// The text of a property: its code, a colon and its value.
pub open spec fn property_text(p: PropertyView) -> Seq<char> {
    hex_byte(p.epc) + ": "@ + edt_text(p.edt)
}

/// The text of properties: one line for each.
pub open spec fn properties_text(props: Seq<PropertyView>) -> Seq<char>
    decreases props.len(),
{
    if props.len() == 0 {
        Seq::empty()
    } else {
        properties_text(props.drop_last()) + property_text(props.last()) + "\n"@
    }
}

/// The text of a service: its code and its name.
pub open spec fn service_text(esv: ServiceCode) -> Seq<char> {
    "ESV: "@ + hex_byte(esv.code()) + " ("@ + esv.name_of() + ")"@
}

/// The text of a class code: its two bytes.
pub open spec fn class_code_text(code: ClassCode) -> Seq<char> {
    hex_byte(code.0[0]) + " "@ + hex_byte(code.0[1])
}

/// The text of an object: the name of its class and its three bytes.
pub open spec fn object_text(object: EchonetObject) -> Seq<char> {
    class_of_code(object.class).name_of() + " ["@ + class_code_text(object.class) + " "@
        + hex_byte(object.instance) + "]"@
}

/// The text of a packet: one line for each field, then the properties.
pub open spec fn packet_text(p: ElPacketView) -> Seq<char> {
    "EHD: "@ + hex_byte(p.ehd1) + hex_byte(p.ehd2) + "\n"@ + "TID: "@ + decimal(
        p.transaction_id as nat,
    ) + "\n"@ + "SEOJ: "@ + object_text(p.seoj) + "\n"@ + "DEOJ: "@ + object_text(p.deoj) + "\n"@
        + service_text(p.esv) + "\n"@ + properties_text(p.props)
}

/// The text of a failure of a source or sink.
pub open spec fn io_error_text(e: io::Error) -> Seq<char> {
    match e {
        io::Error::UnexpectedEof => "unexpected end of file"@,
        io::Error::WriteZero => "failed to write whole buffer"@,
    }
}

/// The name of a kind of value.
pub open spec fn primitive_text(kind: Primitive) -> Seq<char> {
    match kind {
        Primitive::I64 => "i64"@,
        Primitive::U64 => "u64"@,
        Primitive::F32 => "f32"@,
        Primitive::F64 => "f64"@,
        Primitive::Char => "char"@,
        Primitive::Str => "str"@,
        Primitive::Optional => "Option"@,
        Primitive::Mapping => "map"@,
    }
}

/// The text of an error.
pub open spec fn error_text(kind: ErrorKind) -> Seq<char> {
    match kind {
        ErrorKind::Io(e) => "io error: "@ + io_error_text(e),
        ErrorKind::InvalidBoolEncoding(b) => "InvalidBoolEncoding, expected 0 or 1, found "@
            + decimal(b as nat),
        ErrorKind::InvalidTagEncoding(tag) => "InvalidTagEncoding, found "@ + decimal(tag as nat),
        ErrorKind::DeserializeAnyNotSupported => "DeserializeAnyNotSupported"@,
        ErrorKind::SequenceMustHaveLength => "SequenceMustHaveLength"@,
        ErrorKind::NotSupported(kind) => "NotSupported, found "@ + primitive_text(kind),
    }
}

/// The words that head the text of a class packet.
pub open spec fn class_words(class: ElClass) -> Seq<char> {
    match class {
        ElClass::Pv => "House Hold Solar Power"@,
        ElClass::Battery => "Storage Battery"@,
        ElClass::Evps => "EVPS"@,
        ElClass::Hp => "HP"@,
        ElClass::SmartMeter => "Smart Meter"@,
        ElClass::HomeAC => "Home Air Conditioner"@,
        ElClass::Metering => "Power Distribution Board Metering"@,
        ElClass::FuelCell => "Fuel Cell"@,
        ElClass::InstantaneousWaterHeater => "Instantaneous Water Heater"@,
        ElClass::GeneralLighting => "General Lighting"@,
        ElClass::MonoFunctionLighting => "Mono Function Lighting"@,
        ElClass::LightingSystem => "Lighting System"@,
        ElClass::Profile => "Node Profile"@,
        _ => "Unimplemented Class"@,
    }
}

/// The first line of the text of a class packet: the words for its class
/// and the class code.
pub open spec fn heading_text(packet: ClassPacket) -> Seq<char> {
    match packet {
        ClassPacket::Unimplemented(p) => "Unimplemented Class: "@ + class_code_text(p.0),
        _ => {
            let class = packet.class_of();
            class_words(class) + ": 0x"@ + hex_byte(code_of(class).0) + hex_byte(code_of(class).1)
        },
    }
}

/// The line of a property with its name, or with "unknown" where it has
/// none.
pub open spec fn named_property_text(p: PropertyView, name: Option<Seq<char>>) -> Seq<char> {
    property_text(p) + "\t\t["@ + (match name {
        Some(n) => n,
        None => "unknown"@,
    }) + "]"@
}

impl Edt {
    /// The bytes in hexadecimal, each with a space behind it.
    pub fn to_text(&self) -> (r: String)
        ensures
            r@ == edt_text(self@),
    {
        let mut out: String = String::new();
        let mut i: usize = 0;
        assert(self@.take(0) =~= Seq::<u8>::empty());
        while i < self.0.len()
            invariant
                i <= self.0.len(),
                out@ == edt_text(self@.take(i as int)),
            decreases self.0.len() - i,
        {
            push_hex(&mut out, self.0[i]);
            out.append(" ");
            proof {
                let done = self@.take(i + 1);
                assert(done.drop_last() =~= self@.take(i as int));
                assert(done.last() == self@[i as int]);
            }
            i = i + 1;
        }
        assert(self@.take(i as int) =~= self@);
        out
    }
}

impl Property {
    /// The property code, a colon and the bytes of the value.
    pub fn to_text(&self) -> (r: String)
        ensures
            r@ == property_text(self@),
    {
        let mut out: String = String::new();
        push_hex(&mut out, self.epc);
        out.append(": ");
        let edt: String = self.edt.to_text();
        out.append(edt.as_str());
        assert(out@ =~= property_text(self@));
        out
    }

    /// The text of the property with its name in brackets behind it;
    /// "unknown" stands for a property without a name.
    pub fn to_named_text(&self, name: Option<&str>) -> (r: String)
        ensures
            r@ == named_property_text(
                self@,
                match name {
                    Some(n) => Some(n@),
                    None => None,
                },
            ),
    {
        let mut out: String = self.to_text();
        out.append("\t\t[");
        match name {
            Some(n) => out.append(n),
            None => out.append("unknown"),
        }
        out.append("]");
        out
    }
}

impl Properties {
    /// One line for each property.
    pub fn to_text(&self) -> (r: String)
        ensures
            r@ == properties_text(self@),
    {
        let mut out: String = String::new();
        let mut i: usize = 0;
        assert(self@.take(0) =~= Seq::<PropertyView>::empty());
        while i < self.0.len()
            invariant
                i <= self.0.len(),
                out@ == properties_text(self@.take(i as int)),
            decreases self.0.len() - i,
        {
            let line: String = self.0[i].to_text();
            out.append(line.as_str());
            out.append("\n");
            proof {
                let done = self@.take(i + 1);
                assert(done.drop_last() =~= self@.take(i as int));
                assert(done.last() == self@[i as int]);
            }
            i = i + 1;
        }
        assert(self@.take(i as int) =~= self@);
        out
    }
}

impl ServiceCode {
    /// The code of the service in hexadecimal and its name.
    pub fn to_text(&self) -> (r: String)
        ensures
            r@ == service_text(*self),
    {
        let mut out: String = String::from_str("ESV: ");
        push_hex(&mut out, self.to_u8());
        out.append(" (");
        out.append(self.name());
        out.append(")");
        out
    }
}

impl ClassCode {
    /// The two bytes of the code in hexadecimal.
    pub fn to_text(&self) -> (r: String)
        ensures
            r@ == class_code_text(*self),
    {
        let mut out: String = String::new();
        push_hex(&mut out, self.0[0]);
        out.append(" ");
        push_hex(&mut out, self.0[1]);
        assert(out@ =~= class_code_text(*self));
        out
    }
}

impl EchonetObject {
    /// The name of the class of the object and its three bytes.
    pub fn to_text(&self) -> (r: String)
        ensures
            r@ == object_text(*self),
    {
        let mut out: String = String::from_str(self.class_name());
        out.append(" [");
        let code: String = self.class.to_text();
        out.append(code.as_str());
        out.append(" ");
        push_hex(&mut out, self.instance);
        out.append("]");
        out
    }
}

impl Controller {
    /// The name and the code of the controller class.
    pub fn to_text(&self) -> (r: String)
        ensures
            r@ == "Controller: 0x"@ + hex_byte(code_of(ElClass::Controller).0) + hex_byte(
                code_of(ElClass::Controller).1,
            ),
    {
        let code: [u8; 2] = Controller::class_code();
        let mut out: String = String::from_str("Controller: 0x");
        push_hex(&mut out, code[0]);
        push_hex(&mut out, code[1]);
        out
    }
}

impl ElPacket {
    /// The packet field by field: header, transaction id, source,
    /// destination and service on a line each, then the properties.
    pub fn to_text(&self) -> (r: String)
        ensures
            r@ == packet_text(self@),
    {
        let mut out: String = String::from_str("EHD: ");
        push_hex(&mut out, self.ehd1);
        push_hex(&mut out, self.ehd2);
        out.append("\n");
        out.append("TID: ");
        push_decimal(&mut out, self.transaction_id as usize);
        out.append("\n");
        out.append("SEOJ: ");
        let seoj: String = self.seoj.to_text();
        out.append(seoj.as_str());
        out.append("\n");
        out.append("DEOJ: ");
        let deoj: String = self.deoj.to_text();
        out.append(deoj.as_str());
        out.append("\n");
        let esv: String = self.esv.to_text();
        out.append(esv.as_str());
        out.append("\n");
        let props: String = self.props.to_text();
        out.append(props.as_str());
        out
    }
}

impl io::Error {
    /// The failure in words.
    pub fn to_text(&self) -> (r: &'static str)
        ensures
            r@ == io_error_text(*self),
    {
        match self {
            io::Error::UnexpectedEof => "unexpected end of file",
            io::Error::WriteZero => "failed to write whole buffer",
        }
    }
}

impl Primitive {
    /// The name of the kind.
    pub fn to_text(&self) -> (r: &'static str)
        ensures
            r@ == primitive_text(*self),
    {
        match self {
            Primitive::I64 => "i64",
            Primitive::U64 => "u64",
            Primitive::F32 => "f32",
            Primitive::F64 => "f64",
            Primitive::Char => "char",
            Primitive::Str => "str",
            Primitive::Optional => "Option",
            Primitive::Mapping => "map",
        }
    }
}

impl ErrorKind {
    /// The error in words, with the value that was refused where there is
    /// one.
    pub fn to_text(&self) -> (r: String)
        ensures
            r@ == error_text(*self),
    {
        match self {
            ErrorKind::Io(e) => {
                let mut out: String = String::from_str("io error: ");
                out.append(e.to_text());
                out
            },
            ErrorKind::InvalidBoolEncoding(b) => {
                let mut out: String = String::from_str(
                    "InvalidBoolEncoding, expected 0 or 1, found ",
                );
                push_decimal(&mut out, *b as usize);
                out
            },
            ErrorKind::InvalidTagEncoding(tag) => {
                let mut out: String = String::from_str("InvalidTagEncoding, found ");
                push_decimal(&mut out, *tag);
                out
            },
            ErrorKind::DeserializeAnyNotSupported => String::from_str("DeserializeAnyNotSupported"),
            ErrorKind::SequenceMustHaveLength => String::from_str("SequenceMustHaveLength"),
            ErrorKind::NotSupported(kind) => {
                let mut out: String = String::from_str("NotSupported, found ");
                out.append(kind.to_text());
                out
            },
        }
    }
}

impl ClassPacket {
    /// The first line of the text of the packet: the words for its class
    /// and the class code.
    pub fn heading(&self) -> (r: String)
        ensures
            r@ == heading_text(*self),
    {
        if let ClassPacket::Unimplemented(p) = self {
            let mut out: String = String::from_str("Unimplemented Class: ");
            let code: String = p.0.to_text();
            out.append(code.as_str());
            return out;
        }
        let class: ElClass = self.class();
        let words: &'static str = match class {
            ElClass::Pv => "House Hold Solar Power",
            ElClass::Battery => "Storage Battery",
            ElClass::Evps => "EVPS",
            ElClass::Hp => "HP",
            ElClass::SmartMeter => "Smart Meter",
            ElClass::HomeAC => "Home Air Conditioner",
            ElClass::Metering => "Power Distribution Board Metering",
            ElClass::FuelCell => "Fuel Cell",
            ElClass::InstantaneousWaterHeater => "Instantaneous Water Heater",
            ElClass::GeneralLighting => "General Lighting",
            ElClass::MonoFunctionLighting => "Mono Function Lighting",
            ElClass::LightingSystem => "Lighting System",
            ElClass::Profile => "Node Profile",
            _ => "Unimplemented Class",
        };
        let code: [u8; 2] = <[u8; 2]>::from(class);
        let mut out: String = String::from_str(words);
        out.append(": 0x");
        push_hex(&mut out, code[0]);
        push_hex(&mut out, code[1]);
        out
    }
}

} // verus!
