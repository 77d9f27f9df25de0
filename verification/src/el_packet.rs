//! The ECHONET Lite packet and its parts.

use crate::codec::{round_trip_seq, truncated_seq, Codec};
use crate::de::{
    deserialize, decoded_from, eof, parse_bytes, parse_seq, views, Decode, Deserializer,
    EchonetLiteRead, Parsed,
};
use crate::endian::{be_u16, u16_bytes_round_trip, u16_of};
use crate::error::{ErrorKind, Result};
use crate::io::Write;
use crate::object::EchonetObject;
use crate::ser::{
    emitted_stop, emitted_then, encodable_all, length_byte, serialize, wire_all, wire_bytes,
    wire_seq, Encode, Serializer,
};
use vstd::prelude::*;
use vstd::std_specs::convert::{FromSpecImpl, IntoSpec};

verus! {

/// An ECHONET Lite service (ESV): what a packet asks for or reports.
///
/// The set is closed: a byte that is the code of none of these services
/// does not decode.
#[derive(Debug, PartialEq, Eq, Clone, Copy, Structural)]
pub enum ServiceCode {
    /// Answer to `SetI`: the property value cannot be written.
    SetISNA,
    /// Answer to `SetC`: the property value cannot be written.
    SetCSNA,
    /// Answer to `Get`: the property value cannot be read.
    GetSNA,
    /// Answer to `InfReq`: the property value cannot be notified.
    InfSNA,
    /// Answer to `SetGet`: the property values cannot be written and read.
    SetGetSNA,
    /// Request to write a property value, no answer wanted.
    SetI,
    /// Request to write a property value, answer wanted.
    SetC,
    /// Request to read a property value.
    Get,
    /// Request to notify a property value.
    InfReq,
    /// Request to write and read property values.
    SetGet,
    /// Answer to `SetC`: the property value was written.
    SetRes,
    /// Answer to `Get`: the property value that was read.
    GetRes,
    /// Notification of a property value.
    Inf,
    /// Notification of a property value, answer wanted.
    InfC,
    /// Answer to `InfC`.
    InfCRes,
    /// Answer to `SetGet`: the property values were written and read.
    SetGetRes,
}

impl ServiceCode {
    /// The byte that stands for the service.
    pub open spec fn code(self) -> u8 {
        match self {
            ServiceCode::SetISNA => 0x50,
            ServiceCode::SetCSNA => 0x51,
            ServiceCode::GetSNA => 0x52,
            ServiceCode::InfSNA => 0x53,
            ServiceCode::SetGetSNA => 0x5E,
            ServiceCode::SetI => 0x60,
            ServiceCode::SetC => 0x61,
            ServiceCode::Get => 0x62,
            ServiceCode::InfReq => 0x63,
            ServiceCode::SetGet => 0x6E,
            ServiceCode::SetRes => 0x71,
            ServiceCode::GetRes => 0x72,
            ServiceCode::Inf => 0x73,
            ServiceCode::InfC => 0x74,
            ServiceCode::InfCRes => 0x7A,
            ServiceCode::SetGetRes => 0x7E,
        }
    }

    /// The service that `byte` stands for, if it stands for one.
    pub open spec fn of(byte: u8) -> Option<ServiceCode> {
        if byte == 0x50 {
            Some(ServiceCode::SetISNA)
        } else if byte == 0x51 {
            Some(ServiceCode::SetCSNA)
        } else if byte == 0x52 {
            Some(ServiceCode::GetSNA)
        } else if byte == 0x53 {
            Some(ServiceCode::InfSNA)
        } else if byte == 0x5E {
            Some(ServiceCode::SetGetSNA)
        } else if byte == 0x60 {
            Some(ServiceCode::SetI)
        } else if byte == 0x61 {
            Some(ServiceCode::SetC)
        } else if byte == 0x62 {
            Some(ServiceCode::Get)
        } else if byte == 0x63 {
            Some(ServiceCode::InfReq)
        } else if byte == 0x6E {
            Some(ServiceCode::SetGet)
        } else if byte == 0x71 {
            Some(ServiceCode::SetRes)
        } else if byte == 0x72 {
            Some(ServiceCode::GetRes)
        } else if byte == 0x73 {
            Some(ServiceCode::Inf)
        } else if byte == 0x74 {
            Some(ServiceCode::InfC)
        } else if byte == 0x7A {
            Some(ServiceCode::InfCRes)
        } else if byte == 0x7E {
            Some(ServiceCode::SetGetRes)
        } else {
            None
        }
    }

    /// The byte that stands for the service.
    pub fn to_u8(self) -> (r: u8)
        ensures
            r == self.code(),
    {
        match self {
            ServiceCode::SetISNA => 0x50,
            ServiceCode::SetCSNA => 0x51,
            ServiceCode::GetSNA => 0x52,
            ServiceCode::InfSNA => 0x53,
            ServiceCode::SetGetSNA => 0x5E,
            ServiceCode::SetI => 0x60,
            ServiceCode::SetC => 0x61,
            ServiceCode::Get => 0x62,
            ServiceCode::InfReq => 0x63,
            ServiceCode::SetGet => 0x6E,
            ServiceCode::SetRes => 0x71,
            ServiceCode::GetRes => 0x72,
            ServiceCode::Inf => 0x73,
            ServiceCode::InfC => 0x74,
            ServiceCode::InfCRes => 0x7A,
            ServiceCode::SetGetRes => 0x7E,
        }
    }

    /// The service that `byte` stands for, `None` for any other byte.
    pub fn from_u8(byte: u8) -> (r: Option<ServiceCode>)
        ensures
            r == ServiceCode::of(byte),
    {
        match byte {
            0x50 => Some(ServiceCode::SetISNA),
            0x51 => Some(ServiceCode::SetCSNA),
            0x52 => Some(ServiceCode::GetSNA),
            0x53 => Some(ServiceCode::InfSNA),
            0x5E => Some(ServiceCode::SetGetSNA),
            0x60 => Some(ServiceCode::SetI),
            0x61 => Some(ServiceCode::SetC),
            0x62 => Some(ServiceCode::Get),
            0x63 => Some(ServiceCode::InfReq),
            0x6E => Some(ServiceCode::SetGet),
            0x71 => Some(ServiceCode::SetRes),
            0x72 => Some(ServiceCode::GetRes),
            0x73 => Some(ServiceCode::Inf),
            0x74 => Some(ServiceCode::InfC),
            0x7A => Some(ServiceCode::InfCRes),
            0x7E => Some(ServiceCode::SetGetRes),
            _ => None,
        }
    }

    /// The name of the service, as the ECHONET Lite standard
    /// writes it.
    pub open spec fn name_of(self) -> Seq<char> {
        match self {
            ServiceCode::SetISNA => "SetISNA"@,
            ServiceCode::SetCSNA => "SetCSNA"@,
            ServiceCode::GetSNA => "GetSNA"@,
            ServiceCode::InfSNA => "InfSNA"@,
            ServiceCode::SetGetSNA => "SetGetSNA"@,
            ServiceCode::SetI => "SetI"@,
            ServiceCode::SetC => "SetC"@,
            ServiceCode::Get => "Get"@,
            ServiceCode::InfReq => "InfReq"@,
            ServiceCode::SetGet => "SetGet"@,
            ServiceCode::SetRes => "SetRes"@,
            ServiceCode::GetRes => "GetRes"@,
            ServiceCode::Inf => "Inf"@,
            ServiceCode::InfC => "InfC"@,
            ServiceCode::InfCRes => "InfCRes"@,
            ServiceCode::SetGetRes => "SetGetRes"@,
        }
    }

    /// The name of the service, for display.
    pub fn name(&self) -> (r: &'static str)
        ensures
            r@ == self.name_of(),
    {
        match self {
            ServiceCode::SetISNA => "SetISNA",
            ServiceCode::SetCSNA => "SetCSNA",
            ServiceCode::GetSNA => "GetSNA",
            ServiceCode::InfSNA => "InfSNA",
            ServiceCode::SetGetSNA => "SetGetSNA",
            ServiceCode::SetI => "SetI",
            ServiceCode::SetC => "SetC",
            ServiceCode::Get => "Get",
            ServiceCode::InfReq => "InfReq",
            ServiceCode::SetGet => "SetGet",
            ServiceCode::SetRes => "SetRes",
            ServiceCode::GetRes => "GetRes",
            ServiceCode::Inf => "Inf",
            ServiceCode::InfC => "InfC",
            ServiceCode::InfCRes => "InfCRes",
            ServiceCode::SetGetRes => "SetGetRes",
        }
    }

    /// The byte of a service stands for that service.
    pub proof fn of_code(self)
        ensures
            ServiceCode::of(self.code()) == Some(self),
    {
    }

    /// A byte that stands for a service is the byte of that service.
    pub proof fn code_of(byte: u8)
        ensures
            ServiceCode::of(byte) matches Some(s) ==> s.code() == byte,
    {
    }
}

impl View for ServiceCode {
    type V = ServiceCode;

    open spec fn view(&self) -> ServiceCode {
        *self
    }
}

impl Encode for ServiceCode {
    open spec fn encodable(v: ServiceCode) -> bool {
        true
    }

    open spec fn wire(v: ServiceCode) -> Seq<u8> {
        seq![v.code()]
    }

    fn encode<W: Write>(&self, ser: &mut Serializer<W>) -> (r: Result<()>) {
        ser.serialize_u8(self.to_u8())
    }
}

impl Decode for ServiceCode {
    open spec fn parse(bytes: Seq<u8>) -> Parsed<ServiceCode> {
        if bytes.len() < 1 {
            eof()
        } else {
            match ServiceCode::of(bytes[0]) {
                Some(esv) => Ok((esv, 1)),
                None => Err(ErrorKind::InvalidTagEncoding(bytes[0] as usize)),
            }
        }
    }

    fn decode<R: EchonetLiteRead>(de: &mut Deserializer<R>) -> (r: Result<ServiceCode>) {
        let mut cursor: Deserializer<R> = *de;
        let tag: u8 = cursor.deserialize_u8()?;
        match ServiceCode::from_u8(tag) {
            Some(esv) => {
                *de = cursor;
                Ok(esv)
            },
            None => Err(Box::new(ErrorKind::InvalidTagEncoding(tag as usize))),
        }
    }
}

impl Codec for ServiceCode {
    proof fn round_trip(v: ServiceCode, rest: Seq<u8>) {
    }

    proof fn truncated(v: ServiceCode, n: int) {
    }
}

/// ECHONET property value data (EDT): the bytes of one property value. The
/// codec does not look into them.
#[derive(Debug, PartialEq, Eq)]
pub struct Edt(pub Vec<u8>);

impl Edt {
    /// The data that holds the bytes of `value`.
    pub fn new(value: Vec<u8>) -> (r: Edt)
        ensures
            r@ == value@,
    {
        Edt(value)
    }
}

impl View for Edt {
    type V = Seq<u8>;

    open spec fn view(&self) -> Seq<u8> {
        self.0@
    }
}

impl Clone for Edt {
    fn clone(&self) -> (r: Edt)
        ensures
            r@ == self@,
    {
        Edt(self.0.clone())
    }
}

impl Default for Edt {
    fn default() -> (r: Edt)
        ensures
            r@ == Seq::<u8>::empty(),
    {
        Edt(Vec::new())
    }
}

impl Encode for Edt {
    open spec fn encodable(v: Seq<u8>) -> bool {
        v.len() <= 255
    }

    open spec fn wire(v: Seq<u8>) -> Seq<u8> {
        wire_bytes(v)
    }

    fn encode<W: Write>(&self, ser: &mut Serializer<W>) -> (r: Result<()>) {
        ser.serialize_bytes(self.0.as_slice())
    }
}

impl Decode for Edt {
    open spec fn parse(bytes: Seq<u8>) -> Parsed<Seq<u8>> {
        parse_bytes(bytes)
    }

    fn decode<R: EchonetLiteRead>(de: &mut Deserializer<R>) -> (r: Result<Edt>) {
        let bytes: Vec<u8> = de.deserialize_byte_buf()?;
        Ok(Edt(bytes))
    }
}

impl Codec for Edt {
    proof fn round_trip(v: Seq<u8>, rest: Seq<u8>) {
        let s = wire_bytes(v) + rest;
        assert(s[0] == v.len());
        assert(s.subrange(1, 1 + v.len() as int) =~= v);
    }

    proof fn truncated(v: Seq<u8>, n: int) {
        let s = wire_bytes(v).take(n);
        if n >= 1 {
            assert(s[0] == v.len());
        }
    }
}

/// What a [`Property`] holds.
pub struct PropertyView {
    /// The property code.
    pub epc: u8,
    /// The bytes of the property value.
    pub edt: Seq<u8>,
}

/// One property of an object: the property code (EPC) and the property value
/// data (EDT). On the wire the length of the data (PDC) stands between them.
#[derive(Debug, PartialEq, Eq)]
pub struct Property {
    /// The property code.
    pub epc: u8,
    /// The property value data.
    pub edt: Edt,
}

impl View for Property {
    type V = PropertyView;

    open spec fn view(&self) -> PropertyView {
        PropertyView { epc: self.epc, edt: self.edt@ }
    }
}

impl Clone for Property {
    fn clone(&self) -> (r: Property)
        ensures
            r@ == self@,
    {
        Property { epc: self.epc, edt: self.edt.clone() }
    }
}

impl Default for Property {
    fn default() -> (r: Property)
        ensures
            r@ == (PropertyView { epc: 0, edt: Seq::empty() }),
    {
        Property { epc: 0, edt: Edt(Vec::new()) }
    }
}

impl Encode for Property {
    open spec fn encodable(v: PropertyView) -> bool {
        v.edt.len() <= 255
    }

    open spec fn wire(v: PropertyView) -> Seq<u8> {
        seq![v.epc] + wire_bytes(v.edt)
    }

    fn encode<W: Write>(&self, ser: &mut Serializer<W>) -> (r: Result<()>) {
        let ghost pre = ser.sink();
        match ser.serialize_u8(self.epc) {
            Ok(()) => {},
            Err(e) => {
                proof {
                    emitted_stop(pre, ser.sink(), seq![self.epc], wire_bytes(self.edt@), Err(e));
                }
                return Err(e);
            },
        }
        let ghost mid = ser.sink();
        let r = self.edt.encode(ser);
        proof {
            emitted_then(pre, mid, ser.sink(), seq![self.epc], wire_bytes(self.edt@), r);
        }
        r
    }
}

impl Decode for Property {
    open spec fn parse(bytes: Seq<u8>) -> Parsed<PropertyView> {
        if bytes.len() >= 2 && bytes.len() >= 2 + bytes[1] {
            Ok(
                (
                    PropertyView { epc: bytes[0], edt: bytes.subrange(2, 2 + bytes[1]) },
                    (2 + bytes[1]) as nat,
                ),
            )
        } else {
            eof()
        }
    }

    fn decode<R: EchonetLiteRead>(de: &mut Deserializer<R>) -> (r: Result<Property>) {
        let ghost start = de.remaining();
        let mut cursor: Deserializer<R> = *de;
        let epc: u8 = cursor.deserialize_u8()?;
        let edt: Edt = Edt::decode(&mut cursor)?;
        proof {
            let len = start[1];
            assert(start.skip(1).subrange(1, 1 + len) =~= start.subrange(2, 2 + len));
            assert(start.skip(1).skip(1 + len) =~= start.skip(2 + len));
        }
        *de = cursor;
        Ok(Property { epc, edt })
    }
}

impl Codec for Property {
    proof fn round_trip(v: PropertyView, rest: Seq<u8>) {
        let s = Self::wire(v) + rest;
        assert(s[1] == v.edt.len());
        assert(s.subrange(2, 2 + v.edt.len() as int) =~= v.edt);
    }

    proof fn truncated(v: PropertyView, n: int) {
        let s = Self::wire(v).take(n);
        if n >= 2 {
            assert(s[1] == v.edt.len());
        }
    }
}

/// The properties of a packet, in the order the sender gave them. On the
/// wire their number (OPC) comes first.
#[derive(Debug, PartialEq, Eq)]
pub struct Properties(pub Vec<Property>);

impl View for Properties {
    type V = Seq<PropertyView>;

    open spec fn view(&self) -> Seq<PropertyView> {
        views(self.0@)
    }
}

impl Properties {
    /// The number of properties.
    pub fn num(&self) -> (n: usize)
        ensures
            n == self@.len(),
    {
        self.0.len()
    }

    /// The properties, one after the other.
    pub fn iter(&self) -> (r: core::slice::Iter<'_, Property>)
        ensures
            vstd::std_specs::slice::into_iter_elts(r) == self.0@,
    {
        broadcast use vstd::std_specs::slice::axiom_spec_slice_iter;

        let items: &[Property] = self.0.as_slice();
        let r = items.iter();
        assert(vstd::std_specs::slice::into_iter_elts(r) =~= self.0@);
        r
    }

    /// The property at `index`, `None` past the last one.
    pub fn get(&self, index: usize) -> (r: Option<&Property>)
        ensures
            index < self@.len() ==> (r matches Some(p) && p@ == self@[index as int]),
            index >= self@.len() ==> r is None,
    {
        if index < self.num() {
            Some(&self.0[index])
        } else {
            None
        }
    }
}

impl core::ops::Deref for Properties {
    type Target = Vec<Property>;

    fn deref(&self) -> (r: &Vec<Property>)
        ensures
            *r == self.0,
    {
        &self.0
    }
}

impl core::ops::Deref for Edt {
    type Target = [u8];

    fn deref(&self) -> (r: &[u8])
        ensures
            r@ == self@,
    {
        self.0.as_slice()
    }
}

impl From<Vec<Property>> for Properties {
    fn from(props: Vec<Property>) -> (r: Properties) {
        Properties(props)
    }
}

impl FromSpecImpl<Vec<Property>> for Properties {
    open spec fn obeys_from_spec() -> bool {
        true
    }

    open spec fn from_spec(props: Vec<Property>) -> Properties {
        Properties(props)
    }
}

impl Clone for Properties {
    fn clone(&self) -> (r: Properties)
        ensures
            r@ == self@,
    {
        let mut out: Vec<Property> = Vec::new();
        let mut i: usize = 0;
        while i < self.0.len()
            invariant
                i <= self.0.len(),
                out@.len() == i,
                forall|j: int| 0 <= j < i ==> (#[trigger] out@[j])@ == self.0@[j]@,
            decreases self.0.len() - i,
        {
            let item: Property = self.0[i].clone();
            out.push(item);
            i = i + 1;
        }
        assert(views(out@) =~= views(self.0@));
        Properties(out)
    }
}

impl Default for Properties {
    fn default() -> (r: Properties)
        ensures
            r@ == Seq::<PropertyView>::empty(),
    {
        let r = Properties(Vec::new());
        assert(r@ =~= Seq::<PropertyView>::empty());
        r
    }
}

impl Encode for Properties {
    open spec fn encodable(v: Seq<PropertyView>) -> bool {
        v.len() <= 255 && encodable_all::<Property>(v)
    }

    open spec fn wire(v: Seq<PropertyView>) -> Seq<u8> {
        wire_seq::<Property>(v)
    }

    fn encode<W: Write>(&self, ser: &mut Serializer<W>) -> (r: Result<()>) {
        let ghost pre = ser.sink();
        let ghost count = seq![length_byte(self@.len())];
        let ghost items = wire_all::<Property>(self@);
        match ser.serialize_seq(Some(self.0.len())) {
            Ok(()) => {},
            Err(e) => {
                proof {
                    emitted_stop(pre, ser.sink(), count, items, Err(e));
                }
                return Err(e);
            },
        }
        let ghost mid = ser.sink();
        let r = ser.serialize_tuple(self.0.as_slice());
        proof {
            emitted_then(pre, mid, ser.sink(), count, items, r);
        }
        r
    }
}

impl Decode for Properties {
    open spec fn parse(bytes: Seq<u8>) -> Parsed<Seq<PropertyView>> {
        parse_seq::<Property>(bytes)
    }

    fn decode<R: EchonetLiteRead>(de: &mut Deserializer<R>) -> (r: Result<Properties>) {
        let items: Vec<Property> = de.deserialize_seq::<Property>()?;
        Ok(Properties(items))
    }
}

impl Codec for Properties {
    proof fn round_trip(v: Seq<PropertyView>, rest: Seq<u8>) {
        round_trip_seq::<Property>(v, rest);
    }

    proof fn truncated(v: Seq<PropertyView>, n: int) {
        truncated_seq::<Property>(v, n);
    }
}

/// The property with code `epc` and the bytes of `edt` as its value.
pub fn prop(epc: u8, edt: &[u8]) -> (r: Property)
    ensures
        r@ == (PropertyView { epc, edt: edt@ }),
{
    Property { epc, edt: Edt(vstd::slice::slice_to_vec(edt)) }
}

/// The properties of a request that reads the values of `epcs`: one
/// property for each code, in order, each with no data.
pub fn bulk_read(epcs: &[u8]) -> (r: Properties)
    ensures
        r@ == Seq::new(epcs@.len(), |i: int| PropertyView { epc: epcs@[i], edt: Seq::empty() }),
{
    let mut out: Vec<Property> = Vec::new();
    let mut i: usize = 0;
    while i < epcs.len()
        invariant
            i <= epcs.len(),
            out@.len() == i,
            forall|j: int|
                0 <= j < i ==> (#[trigger] out@[j])@ == (PropertyView {
                    epc: epcs@[j],
                    edt: Seq::empty(),
                }),
        decreases epcs.len() - i,
    {
        out.push(Property { epc: epcs[i], edt: Edt(Vec::new()) });
        i = i + 1;
    }
    assert(views(out@) =~= Seq::new(
        epcs@.len(),
        |j: int| PropertyView { epc: epcs@[j], edt: Seq::empty() },
    ));
    Properties(out)
}

/// What an [`ElPacket`] holds.
pub struct ElPacketView {
    /// The first header byte.
    pub ehd1: u8,
    /// The second header byte.
    pub ehd2: u8,
    /// The transaction id.
    pub transaction_id: u16,
    /// The object that sent the packet.
    pub seoj: EchonetObject,
    /// The object that the packet is for.
    pub deoj: EchonetObject,
    /// The service.
    pub esv: ServiceCode,
    /// The properties, in order.
    pub props: Seq<PropertyView>,
}

impl ElPacketView {
    /// The eleven bytes in front of the properties. The header bytes on the
    /// wire are always the standard pair, whatever the packet holds.
    pub open spec fn header(self) -> Seq<u8> {
        seq![EHD1, EHD2] + be_u16(self.transaction_id) + self.seoj.bytes() + self.deoj.bytes()
            + seq![self.esv.code()]
    }

    /// The answer to the packet that carries `esv` and `props`: it has the
    /// standard header and the transaction id of the packet, and goes from
    /// the destination of the packet to its source.
    pub open spec fn response(self, esv: ServiceCode, props: Seq<PropertyView>) -> ElPacketView {
        ElPacketView {
            ehd1: EHD1,
            ehd2: EHD2,
            transaction_id: self.transaction_id,
            seoj: self.deoj,
            deoj: self.seoj,
            esv,
            props,
        }
    }

    /// Whether the header bytes are the standard pair.
    pub open spec fn has_standard_header(self) -> bool {
        self.ehd1 == EHD1 && self.ehd2 == EHD2
    }

    /// Whether the packet answers `req`: it has the transaction id of `req`
    /// and comes from the object that `req` was sent to.
    pub open spec fn answers(self, req: ElPacketView) -> bool {
        self.transaction_id == req.transaction_id && self.seoj == req.deoj
    }
}

/// The first header byte of every packet that is built here.
pub const EHD1: u8 = 0x10;

/// The second header byte of every packet that is built here.
pub const EHD2: u8 = 0x81;

/// An ECHONET Lite packet.
///
/// On the wire a packet is its two header bytes (EHD1, EHD2), its
/// transaction id (TID), the source object (SEOJ), the destination object
/// (DEOJ), the service (ESV), the number of properties (OPC) and for each
/// property its code (EPC), the length of its data (PDC) and its data (EDT).
#[derive(Debug, PartialEq)]
pub struct ElPacket {
    /// The first header byte, as built or as received.
    pub ehd1: u8,
    /// The second header byte, as built or as received.
    pub ehd2: u8,
    /// The transaction id: an answer carries the id of its request.
    pub transaction_id: u16,
    /// The object that sent the packet.
    pub seoj: EchonetObject,
    /// The object that the packet is for.
    pub deoj: EchonetObject,
    /// The service.
    pub esv: ServiceCode,
    /// The properties.
    pub props: Properties,
}

impl View for ElPacket {
    type V = ElPacketView;

    open spec fn view(&self) -> ElPacketView {
        ElPacketView {
            ehd1: self.ehd1,
            ehd2: self.ehd2,
            transaction_id: self.transaction_id,
            seoj: self.seoj,
            deoj: self.deoj,
            esv: self.esv,
            props: self.props@,
        }
    }
}

/// Whether two objects are the same object.
fn same_object(a: &EchonetObject, b: &EchonetObject) -> (r: bool)
    ensures
        r == (*a == *b),
{
    proof {
        a.of_bytes();
        b.of_bytes();
    }
    a.class.0[0] == b.class.0[0] && a.class.0[1] == b.class.0[1] && a.instance == b.instance
}

impl ElPacket {
    /// The bytes of the packet.
    pub fn serialize(&self) -> (r: Result<Vec<u8>>)
        ensures
            r matches Ok(bytes) && bytes@ == Self::wire(self@),
    {
        serialize(self)
    }

    /// Reads a packet from the start of `bytes` and says how many bytes it
    /// took. The header bytes are read and kept as they are.
    pub fn from_bytes(bytes: &[u8]) -> (r: Result<(usize, ElPacket)>)
        ensures
            decoded_from::<ElPacket>(Self::parse(bytes@), r),
    {
        deserialize(bytes)
    }

    /// Whether the packet answers `req`: it has the transaction id of `req`
    /// and comes from the object that `req` was sent to.
    pub fn is_response_for(&self, req: &ElPacket) -> (r: bool)
        ensures
            r == self@.answers(req@),
    {
        self.transaction_id == req.transaction_id && same_object(&self.seoj, &req.deoj)
    }

    /// An answer to the packet: it has the same transaction id, goes from
    /// the destination of the packet to its source, and carries `esv` and
    /// `props`.
    pub fn create_response(&self, esv: ServiceCode, props: Properties) -> (r: ElPacket)
        ensures
            r@ == self@.response(esv, props@),
    {
        ElPacket {
            ehd1: EHD1,
            ehd2: EHD2,
            transaction_id: self.transaction_id,
            seoj: self.deoj,
            deoj: self.seoj,
            esv,
            props,
        }
    }
}

impl Clone for ElPacket {
    fn clone(&self) -> (r: ElPacket)
        ensures
            r@ == self@,
    {
        ElPacket {
            ehd1: self.ehd1,
            ehd2: self.ehd2,
            transaction_id: self.transaction_id,
            seoj: self.seoj,
            deoj: self.deoj,
            esv: self.esv,
            props: self.props.clone(),
        }
    }
}

impl Encode for ElPacket {
    open spec fn encodable(v: ElPacketView) -> bool {
        v.has_standard_header() && Properties::encodable(v.props)
    }

    open spec fn wire(v: ElPacketView) -> Seq<u8> {
        v.header() + wire_seq::<Property>(v.props)
    }

    fn encode<W: Write>(&self, ser: &mut Serializer<W>) -> (r: Result<()>) {
        let ghost pre = ser.sink();
        let ghost all = Self::wire(self@);
        let ghost head1 = seq![EHD1];
        let ghost head2 = head1 + seq![EHD2];
        let ghost head3 = head2 + be_u16(self.transaction_id);
        let ghost head4 = head3 + self.seoj.bytes();
        let ghost head5 = head4 + self.deoj.bytes();
        let ghost head6 = head5 + seq![self.esv.code()];
        proof {
            assert(head6 =~= self@.header());
        }
        let r = ser.serialize_u8(EHD1);
        if r.is_err() {
            proof {
                assert(head1 + all.skip(1) =~= all);
                emitted_stop(pre, ser.sink(), head1, all.skip(1), r);
            }
            return r;
        }
        let ghost mid = ser.sink();
        let r = ser.serialize_u8(EHD2);
        proof {
            emitted_then(pre, mid, ser.sink(), head1, seq![EHD2], r);
        }
        if r.is_err() {
            proof {
                assert(head2 + all.skip(2) =~= all);
                emitted_stop(pre, ser.sink(), head2, all.skip(2), r);
            }
            return r;
        }
        let ghost mid = ser.sink();
        let r = ser.serialize_u16(self.transaction_id);
        proof {
            emitted_then(pre, mid, ser.sink(), head2, be_u16(self.transaction_id), r);
        }
        if r.is_err() {
            proof {
                assert(head3 + all.skip(4) =~= all);
                emitted_stop(pre, ser.sink(), head3, all.skip(4), r);
            }
            return r;
        }
        let ghost mid = ser.sink();
        let r = self.seoj.encode(ser);
        proof {
            emitted_then(pre, mid, ser.sink(), head3, self.seoj.bytes(), r);
        }
        if r.is_err() {
            proof {
                assert(head4 + all.skip(7) =~= all);
                emitted_stop(pre, ser.sink(), head4, all.skip(7), r);
            }
            return r;
        }
        let ghost mid = ser.sink();
        let r = self.deoj.encode(ser);
        proof {
            emitted_then(pre, mid, ser.sink(), head4, self.deoj.bytes(), r);
        }
        if r.is_err() {
            proof {
                assert(head5 + all.skip(10) =~= all);
                emitted_stop(pre, ser.sink(), head5, all.skip(10), r);
            }
            return r;
        }
        let ghost mid = ser.sink();
        let r = self.esv.encode(ser);
        proof {
            emitted_then(pre, mid, ser.sink(), head5, seq![self.esv.code()], r);
        }
        if r.is_err() {
            proof {
                assert(head6 + all.skip(11) =~= all);
                emitted_stop(pre, ser.sink(), head6, all.skip(11), r);
            }
            return r;
        }
        let ghost mid = ser.sink();
        let r = self.props.encode(ser);
        proof {
            emitted_then(pre, mid, ser.sink(), head6, wire_seq::<Property>(self.props@), r);
        }
        r
    }
}

impl Decode for ElPacket {
    open spec fn parse(bytes: Seq<u8>) -> Parsed<ElPacketView> {
        if bytes.len() < 11 {
            eof()
        } else {
            match ServiceCode::of(bytes[10]) {
                None => Err(ErrorKind::InvalidTagEncoding(bytes[10] as usize)),
                Some(esv) => match parse_seq::<Property>(bytes.skip(11)) {
                    Err(e) => Err(e),
                    Ok((props, n)) => Ok(
                        (
                            ElPacketView {
                                ehd1: bytes[0],
                                ehd2: bytes[1],
                                transaction_id: u16_of(bytes[2], bytes[3]),
                                seoj: EchonetObject::of(bytes[4], bytes[5], bytes[6]),
                                deoj: EchonetObject::of(bytes[7], bytes[8], bytes[9]),
                                esv,
                                props,
                            },
                            11 + n,
                        ),
                    ),
                },
            }
        }
    }

    fn decode<R: EchonetLiteRead>(de: &mut Deserializer<R>) -> (r: Result<ElPacket>) {
        let ghost start = de.remaining();
        let mut cursor: Deserializer<R> = *de;
        let ehd1: u8 = cursor.deserialize_u8()?;
        let ehd2: u8 = cursor.deserialize_u8()?;
        assert(cursor.remaining() =~= start.skip(2));
        let transaction_id: u16 = cursor.deserialize_u16()?;
        assert(cursor.remaining() =~= start.skip(4));
        let seoj: EchonetObject = EchonetObject::decode(&mut cursor)?;
        assert(cursor.remaining() =~= start.skip(7));
        let deoj: EchonetObject = EchonetObject::decode(&mut cursor)?;
        assert(cursor.remaining() =~= start.skip(10));
        let esv: ServiceCode = ServiceCode::decode(&mut cursor)?;
        assert(cursor.remaining() =~= start.skip(11));
        let props: Properties = Properties::decode(&mut cursor)?;
        proof {
            let n = parse_seq::<Property>(start.skip(11))->Ok_0.1;
            assert(start.skip(11).skip(n as int) =~= start.skip(11 + n as int));
        }
        *de = cursor;
        Ok(ElPacket { ehd1, ehd2, transaction_id, seoj, deoj, esv, props })
    }
}

impl Codec for ElPacket {
    proof fn round_trip(v: ElPacketView, rest: Seq<u8>) {
        let s = Self::wire(v) + rest;
        round_trip_seq::<Property>(v.props, rest);
        assert(s.skip(11) =~= wire_seq::<Property>(v.props) + rest);
        u16_bytes_round_trip(v.transaction_id);
        v.seoj.of_bytes();
        v.deoj.of_bytes();
        v.esv.of_code();
    }

    proof fn truncated(v: ElPacketView, n: int) {
        let s = Self::wire(v).take(n);
        if n >= 11 {
            truncated_seq::<Property>(v.props, n - 11);
            assert(s.skip(11) =~= wire_seq::<Property>(v.props).take(n - 11));
            v.esv.of_code();
        }
    }
}

/// What an [`ElPacketBuilder`] holds.
pub struct ElPacketBuilderView {
    /// The transaction id.
    pub transaction_id: u16,
    /// The object that sends the packet.
    pub seoj: EchonetObject,
    /// The object that the packet is for.
    pub deoj: EchonetObject,
    /// The service, once it has been given.
    pub esv: Option<ServiceCode>,
    /// The properties, in order.
    pub props: Seq<PropertyView>,
}

/// Builds a packet field by field. Every field but the service starts out
/// as zero or empty; the service has to be given before the packet is built.
#[derive(Debug)]
pub struct ElPacketBuilder {
    transaction_id: u16,
    seoj: EchonetObject,
    deoj: EchonetObject,
    esv: Option<ServiceCode>,
    props: Properties,
}

impl View for ElPacketBuilder {
    type V = ElPacketBuilderView;

    closed spec fn view(&self) -> ElPacketBuilderView {
        ElPacketBuilderView {
            transaction_id: self.transaction_id,
            seoj: self.seoj,
            deoj: self.deoj,
            esv: self.esv,
            props: self.props@,
        }
    }
}

impl Default for ElPacketBuilder {
    fn default() -> (r: ElPacketBuilder)
        ensures
            r@ == (ElPacketBuilderView {
                transaction_id: 0,
                seoj: EchonetObject::of(0, 0, 0),
                deoj: EchonetObject::of(0, 0, 0),
                esv: None,
                props: Seq::empty(),
            }),
    {
        ElPacketBuilder::new()
    }
}

impl ElPacketBuilder {
    /// A builder with transaction id 0, both objects all zero, no service
    /// and no properties.
    pub fn new() -> (r: ElPacketBuilder)
        ensures
            r@ == (ElPacketBuilderView {
                transaction_id: 0,
                seoj: EchonetObject::of(0, 0, 0),
                deoj: EchonetObject::of(0, 0, 0),
                esv: None,
                props: Seq::empty(),
            }),
    {
        ElPacketBuilder {
            transaction_id: 0,
            seoj: EchonetObject::from([0u8, 0u8, 0u8]),
            deoj: EchonetObject::from([0u8, 0u8, 0u8]),
            esv: None,
            props: Properties::default(),
        }
    }

    /// Sets the transaction id.
    pub fn transaction_id(self, tid: u16) -> (r: ElPacketBuilder)
        ensures
            r@ == (ElPacketBuilderView { transaction_id: tid, ..self@ }),
    {
        let mut next = self;
        next.transaction_id = tid;
        next
    }

    /// Sets the object that sends the packet.
    pub fn seoj<T>(self, seoj: T) -> (r: ElPacketBuilder) where T: Into<EchonetObject>
        ensures
            T::obeys_into_spec() ==> r@ == (ElPacketBuilderView {
                seoj: seoj.into_spec(),
                ..self@
            }),
            r@.transaction_id == self@.transaction_id,
            r@.deoj == self@.deoj,
            r@.esv == self@.esv,
            r@.props == self@.props,
    {
        let mut next = self;
        next.seoj = seoj.into();
        next
    }

    /// Sets the object that the packet is for.
    pub fn deoj<T>(self, deoj: T) -> (r: ElPacketBuilder) where T: Into<EchonetObject>
        ensures
            T::obeys_into_spec() ==> r@ == (ElPacketBuilderView {
                deoj: deoj.into_spec(),
                ..self@
            }),
            r@.transaction_id == self@.transaction_id,
            r@.seoj == self@.seoj,
            r@.esv == self@.esv,
            r@.props == self@.props,
    {
        let mut next = self;
        next.deoj = deoj.into();
        next
    }

    /// Sets the service.
    pub fn esv(self, esv: ServiceCode) -> (r: ElPacketBuilder)
        ensures
            r@ == (ElPacketBuilderView { esv: Some(esv), ..self@ }),
    {
        let mut next = self;
        next.esv = Some(esv);
        next
    }

    /// Sets the properties.
    pub fn props(self, props: Properties) -> (r: ElPacketBuilder)
        ensures
            r@ == (ElPacketBuilderView { props: props@, ..self@ }),
    {
        let mut next = self;
        next.props = props;
        next
    }

    /// The packet with the fields that were given and the standard header
    /// bytes. The service must have been given.
    pub fn build(self) -> (r: ElPacket)
        requires
            self@.esv is Some,
        ensures
            r@ == (ElPacketView {
                ehd1: EHD1,
                ehd2: EHD2,
                transaction_id: self@.transaction_id,
                seoj: self@.seoj,
                deoj: self@.deoj,
                esv: self@.esv->Some_0,
                props: self@.props,
            }),
    {
        ElPacket {
            ehd1: EHD1,
            ehd2: EHD2,
            transaction_id: self.transaction_id,
            seoj: self.seoj,
            deoj: self.deoj,
            esv: self.esv.unwrap(),
            props: self.props,
        }
    }
}

} // verus!
