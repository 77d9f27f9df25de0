//! Packets by the class of the object that sent them.
//!
//! A [`ClassPacket`] holds the properties of a packet under the class of its
//! source object, so that the properties can be read as those of that class.

use crate::el_packet::{Edt, ElPacket, Properties, Property};
use crate::object::{class_of, ClassCode, EchonetObject, ElClass};
use vstd::prelude::*;
use vstd::std_specs::convert::FromSpecImpl;

verus! {

/// The class that the code `code` stands for.
pub open spec fn class_of_code(code: ClassCode) -> ElClass {
    class_of(code.0[0], code.0[1])
}

/// The properties of a packet from an object of a class that has no packet
/// type of its own, with the code of that class.
#[derive(Debug, PartialEq, Eq)]
pub struct UnimplementedPacket(pub ClassCode, pub Properties);

impl UnimplementedPacket {
    /// The properties of the packet.
    pub fn properties(&self) -> (r: &Properties)
        ensures
            *r == self.1,
    {
        &self.1
    }
}

impl From<ElPacket> for UnimplementedPacket {
    fn from(value: ElPacket) -> (r: UnimplementedPacket) {
        UnimplementedPacket(value.seoj.class, value.props)
    }
}

impl FromSpecImpl<ElPacket> for UnimplementedPacket {
    open spec fn obeys_from_spec() -> bool {
        true
    }

    open spec fn from_spec(value: ElPacket) -> UnimplementedPacket {
        UnimplementedPacket(value.seoj.class, value.props)
    }
}

/// The properties of a packet from a household solar power generator.
#[derive(Debug, PartialEq, Eq)]
pub struct SolarPowerPacket(pub Properties);

impl SolarPowerPacket {
    /// The properties of the packet.
    pub fn properties(&self) -> (r: &Properties)
        ensures
            *r == self.0,
    {
        &self.0
    }

    /// The properties of `value`, which must come from a household solar power generator.
    pub fn from_packet(value: ElPacket) -> (r: SolarPowerPacket)
        requires
            class_of_code(value.seoj.class) == ElClass::Pv,
        ensures
            r == SolarPowerPacket(value.props),
    {
        SolarPowerPacket(value.props)
    }
}

/// The properties of a packet from a storage battery.
#[derive(Debug, PartialEq, Eq)]
pub struct StorageBatteryPacket(pub Properties);

impl StorageBatteryPacket {
    /// The properties of the packet.
    pub fn properties(&self) -> (r: &Properties)
        ensures
            *r == self.0,
    {
        &self.0
    }

    /// The properties of `value`, which must come from a storage battery.
    pub fn from_packet(value: ElPacket) -> (r: StorageBatteryPacket)
        requires
            class_of_code(value.seoj.class) == ElClass::Battery,
        ensures
            r == StorageBatteryPacket(value.props),
    {
        StorageBatteryPacket(value.props)
    }
}

/// The properties of a packet from an electric vehicle charger and discharger.
#[derive(Debug, PartialEq, Eq)]
pub struct EvpsPacket(pub Properties);

impl EvpsPacket {
    /// The properties of the packet.
    pub fn properties(&self) -> (r: &Properties)
        ensures
            *r == self.0,
    {
        &self.0
    }

    /// The properties of `value`, which must come from an electric vehicle charger and discharger.
    pub fn from_packet(value: ElPacket) -> (r: EvpsPacket)
        requires
            class_of_code(value.seoj.class) == ElClass::Evps,
        ensures
            r == EvpsPacket(value.props),
    {
        EvpsPacket(value.props)
    }
}

/// The properties of a packet from a heat pump.
#[derive(Debug, PartialEq, Eq)]
pub struct HpPacket(pub Properties);

impl HpPacket {
    /// The properties of the packet.
    pub fn properties(&self) -> (r: &Properties)
        ensures
            *r == self.0,
    {
        &self.0
    }

    /// The properties of `value`, which must come from a heat pump.
    pub fn from_packet(value: ElPacket) -> (r: HpPacket)
        requires
            class_of_code(value.seoj.class) == ElClass::Hp,
        ensures
            r == HpPacket(value.props),
    {
        HpPacket(value.props)
    }
}

/// The properties of a packet from a smart meter.
#[derive(Debug, PartialEq, Eq)]
pub struct SmartMeterPacket(pub Properties);

impl SmartMeterPacket {
    /// The properties of the packet.
    pub fn properties(&self) -> (r: &Properties)
        ensures
            *r == self.0,
    {
        &self.0
    }

    /// The properties of `value`, which must come from a smart meter.
    pub fn from_packet(value: ElPacket) -> (r: SmartMeterPacket)
        requires
            class_of_code(value.seoj.class) == ElClass::SmartMeter,
        ensures
            r == SmartMeterPacket(value.props),
    {
        SmartMeterPacket(value.props)
    }
}

/// The properties of a packet from a home air conditioner.
#[derive(Debug, PartialEq, Eq)]
pub struct AirConditionerPacket(pub Properties);

impl AirConditionerPacket {
    /// The properties of the packet.
    pub fn properties(&self) -> (r: &Properties)
        ensures
            *r == self.0,
    {
        &self.0
    }

    /// The properties of `value`, which must come from a home air conditioner.
    pub fn from_packet(value: ElPacket) -> (r: AirConditionerPacket)
        requires
            class_of_code(value.seoj.class) == ElClass::HomeAC,
        ensures
            r == AirConditionerPacket(value.props),
    {
        AirConditionerPacket(value.props)
    }
}

/// The properties of a packet from a power distribution board meter.
#[derive(Debug, PartialEq, Eq)]
pub struct MeteringPacket(pub Properties);

impl MeteringPacket {
    /// The properties of the packet.
    pub fn properties(&self) -> (r: &Properties)
        ensures
            *r == self.0,
    {
        &self.0
    }

    /// The properties of `value`, which must come from a power distribution board meter.
    pub fn from_packet(value: ElPacket) -> (r: MeteringPacket)
        requires
            class_of_code(value.seoj.class) == ElClass::Metering,
        ensures
            r == MeteringPacket(value.props),
    {
        MeteringPacket(value.props)
    }
}

/// The properties of a packet from a fuel cell.
#[derive(Debug, PartialEq, Eq)]
pub struct FuelCellPacket(pub Properties);

impl FuelCellPacket {
    /// The properties of the packet.
    pub fn properties(&self) -> (r: &Properties)
        ensures
            *r == self.0,
    {
        &self.0
    }

    /// The properties of `value`, which must come from a fuel cell.
    pub fn from_packet(value: ElPacket) -> (r: FuelCellPacket)
        requires
            class_of_code(value.seoj.class) == ElClass::FuelCell,
        ensures
            r == FuelCellPacket(value.props),
    {
        FuelCellPacket(value.props)
    }
}

/// The properties of a packet from an instantaneous water heater.
#[derive(Debug, PartialEq, Eq)]
pub struct InstantaneousWaterHeaterPacket(pub Properties);

impl InstantaneousWaterHeaterPacket {
    /// The properties of the packet.
    pub fn properties(&self) -> (r: &Properties)
        ensures
            *r == self.0,
    {
        &self.0
    }

    /// The properties of `value`, which must come from an instantaneous water heater.
    pub fn from_packet(value: ElPacket) -> (r: InstantaneousWaterHeaterPacket)
        requires
            class_of_code(value.seoj.class) == ElClass::InstantaneousWaterHeater,
        ensures
            r == InstantaneousWaterHeaterPacket(value.props),
    {
        InstantaneousWaterHeaterPacket(value.props)
    }
}

/// The properties of a packet from a general lighting.
#[derive(Debug, PartialEq, Eq)]
pub struct GeneralLightingPacket(pub Properties);

impl GeneralLightingPacket {
    /// The properties of the packet.
    pub fn properties(&self) -> (r: &Properties)
        ensures
            *r == self.0,
    {
        &self.0
    }

    /// The properties of `value`, which must come from a general lighting.
    pub fn from_packet(value: ElPacket) -> (r: GeneralLightingPacket)
        requires
            class_of_code(value.seoj.class) == ElClass::GeneralLighting,
        ensures
            r == GeneralLightingPacket(value.props),
    {
        GeneralLightingPacket(value.props)
    }
}

/// The properties of a packet from a mono functional lighting.
#[derive(Debug, PartialEq, Eq)]
pub struct MonoFunctionLightingPacket(pub Properties);

impl MonoFunctionLightingPacket {
    /// The properties of the packet.
    pub fn properties(&self) -> (r: &Properties)
        ensures
            *r == self.0,
    {
        &self.0
    }

    /// The properties of `value`, which must come from a mono functional lighting.
    pub fn from_packet(value: ElPacket) -> (r: MonoFunctionLightingPacket)
        requires
            class_of_code(value.seoj.class) == ElClass::MonoFunctionLighting,
        ensures
            r == MonoFunctionLightingPacket(value.props),
    {
        MonoFunctionLightingPacket(value.props)
    }
}

/// The properties of a packet from a lighting system.
#[derive(Debug, PartialEq, Eq)]
pub struct LightingSystemPacket(pub Properties);

impl LightingSystemPacket {
    /// The properties of the packet.
    pub fn properties(&self) -> (r: &Properties)
        ensures
            *r == self.0,
    {
        &self.0
    }

    /// The properties of `value`, which must come from a lighting system.
    pub fn from_packet(value: ElPacket) -> (r: LightingSystemPacket)
        requires
            class_of_code(value.seoj.class) == ElClass::LightingSystem,
        ensures
            r == LightingSystemPacket(value.props),
    {
        LightingSystemPacket(value.props)
    }
}

/// The properties of a packet from a node profile.
#[derive(Debug, PartialEq, Eq)]
pub struct ProfilePacket(pub Properties);

impl ProfilePacket {
    /// The properties of the packet.
    pub fn properties(&self) -> (r: &Properties)
        ensures
            *r == self.0,
    {
        &self.0
    }

    /// The properties of `value`, which must come from a node profile.
    pub fn from_packet(value: ElPacket) -> (r: ProfilePacket)
        requires
            class_of_code(value.seoj.class) == ElClass::Profile,
        ensures
            r == ProfilePacket(value.props),
    {
        ProfilePacket(value.props)
    }
}

/// The properties of a packet, under the class of the object that sent it.
#[derive(Debug, PartialEq, Eq)]
pub enum ClassPacket {
    /// From an object of a class that has no packet type of its own.
    Unimplemented(UnimplementedPacket),
    /// From a household solar power generator.
    SolarPower(SolarPowerPacket),
    /// From a storage battery.
    StorageBattery(StorageBatteryPacket),
    /// From an electric vehicle charger and discharger.
    Evps(EvpsPacket),
    /// From a heat pump.
    Hp(HpPacket),
    /// From a smart meter.
    SmartMeter(SmartMeterPacket),
    /// From a home air conditioner.
    AirConditioner(AirConditionerPacket),
    /// From a power distribution board meter.
    Metering(MeteringPacket),
    /// From a fuel cell.
    FuelCell(FuelCellPacket),
    /// From an instantaneous water heater.
    InstantaneousWaterHeater(InstantaneousWaterHeaterPacket),
    /// From a general lighting.
    GeneralLighting(GeneralLightingPacket),
    /// From a mono functional lighting.
    MonoFunctionLighting(MonoFunctionLightingPacket),
    /// From a lighting system.
    LightingSystem(LightingSystemPacket),
    /// From a node profile.
    Profile(ProfilePacket),
}

/// The packet that holds `props` under the class of `eoj`.
pub open spec fn class_packet(eoj: EchonetObject, props: Properties) -> ClassPacket {
    match class_of_code(eoj.class) {
        ElClass::Pv => ClassPacket::SolarPower(SolarPowerPacket(props)),
        ElClass::Battery => ClassPacket::StorageBattery(StorageBatteryPacket(props)),
        ElClass::Evps => ClassPacket::Evps(EvpsPacket(props)),
        ElClass::Hp => ClassPacket::Hp(HpPacket(props)),
        ElClass::SmartMeter => ClassPacket::SmartMeter(SmartMeterPacket(props)),
        ElClass::HomeAC => ClassPacket::AirConditioner(AirConditionerPacket(props)),
        ElClass::Metering => ClassPacket::Metering(MeteringPacket(props)),
        ElClass::FuelCell => ClassPacket::FuelCell(FuelCellPacket(props)),
        ElClass::InstantaneousWaterHeater => ClassPacket::InstantaneousWaterHeater(InstantaneousWaterHeaterPacket(props)),
        ElClass::GeneralLighting => ClassPacket::GeneralLighting(GeneralLightingPacket(props)),
        ElClass::MonoFunctionLighting => ClassPacket::MonoFunctionLighting(MonoFunctionLightingPacket(props)),
        ElClass::LightingSystem => ClassPacket::LightingSystem(LightingSystemPacket(props)),
        ElClass::Profile => ClassPacket::Profile(ProfilePacket(props)),
        _ => ClassPacket::Unimplemented(UnimplementedPacket(eoj.class, props)),
    }
}

impl ClassPacket {
    /// The properties that the packet holds.
    pub open spec fn props(&self) -> Properties {
        match self {
            ClassPacket::Unimplemented(p) => p.1,
            ClassPacket::SolarPower(p) => p.0,
            ClassPacket::StorageBattery(p) => p.0,
            ClassPacket::Evps(p) => p.0,
            ClassPacket::Hp(p) => p.0,
            ClassPacket::SmartMeter(p) => p.0,
            ClassPacket::AirConditioner(p) => p.0,
            ClassPacket::Metering(p) => p.0,
            ClassPacket::FuelCell(p) => p.0,
            ClassPacket::InstantaneousWaterHeater(p) => p.0,
            ClassPacket::GeneralLighting(p) => p.0,
            ClassPacket::MonoFunctionLighting(p) => p.0,
            ClassPacket::LightingSystem(p) => p.0,
            ClassPacket::Profile(p) => p.0,
        }
    }

    /// The class that the packet holds its properties under.
    pub open spec fn class_of(&self) -> ElClass {
        match self {
            ClassPacket::Unimplemented(p) => class_of_code(p.0),
            ClassPacket::SolarPower(_) => ElClass::Pv,
            ClassPacket::StorageBattery(_) => ElClass::Battery,
            ClassPacket::Evps(_) => ElClass::Evps,
            ClassPacket::Hp(_) => ElClass::Hp,
            ClassPacket::SmartMeter(_) => ElClass::SmartMeter,
            ClassPacket::AirConditioner(_) => ElClass::HomeAC,
            ClassPacket::Metering(_) => ElClass::Metering,
            ClassPacket::FuelCell(_) => ElClass::FuelCell,
            ClassPacket::InstantaneousWaterHeater(_) => ElClass::InstantaneousWaterHeater,
            ClassPacket::GeneralLighting(_) => ElClass::GeneralLighting,
            ClassPacket::MonoFunctionLighting(_) => ElClass::MonoFunctionLighting,
            ClassPacket::LightingSystem(_) => ElClass::LightingSystem,
            ClassPacket::Profile(_) => ElClass::Profile,
        }
    }

    /// The class that the packet holds its properties under.
    pub fn class(&self) -> (r: ElClass)
        ensures
            r == self.class_of(),
    {
        match self {
            ClassPacket::Unimplemented(p) => ElClass::from(&p.0.0),
            ClassPacket::SolarPower(_) => ElClass::Pv,
            ClassPacket::StorageBattery(_) => ElClass::Battery,
            ClassPacket::Evps(_) => ElClass::Evps,
            ClassPacket::Hp(_) => ElClass::Hp,
            ClassPacket::SmartMeter(_) => ElClass::SmartMeter,
            ClassPacket::AirConditioner(_) => ElClass::HomeAC,
            ClassPacket::Metering(_) => ElClass::Metering,
            ClassPacket::FuelCell(_) => ElClass::FuelCell,
            ClassPacket::InstantaneousWaterHeater(_) => ElClass::InstantaneousWaterHeater,
            ClassPacket::GeneralLighting(_) => ElClass::GeneralLighting,
            ClassPacket::MonoFunctionLighting(_) => ElClass::MonoFunctionLighting,
            ClassPacket::LightingSystem(_) => ElClass::LightingSystem,
            ClassPacket::Profile(_) => ElClass::Profile,
        }
    }

    /// The packet that holds `props` under the class of `eoj`.
    pub fn new(eoj: EchonetObject, props: Properties) -> (r: ClassPacket)
        ensures
            r == class_packet(eoj, props),
            r.props() == props,
    {
        match ElClass::from(eoj) {
            ElClass::Pv => ClassPacket::SolarPower(SolarPowerPacket(props)),
            ElClass::Battery => ClassPacket::StorageBattery(StorageBatteryPacket(props)),
            ElClass::Evps => ClassPacket::Evps(EvpsPacket(props)),
            ElClass::Hp => ClassPacket::Hp(HpPacket(props)),
            ElClass::SmartMeter => ClassPacket::SmartMeter(SmartMeterPacket(props)),
            ElClass::HomeAC => ClassPacket::AirConditioner(AirConditionerPacket(props)),
            ElClass::Metering => ClassPacket::Metering(MeteringPacket(props)),
            ElClass::FuelCell => ClassPacket::FuelCell(FuelCellPacket(props)),
            ElClass::InstantaneousWaterHeater => ClassPacket::InstantaneousWaterHeater(InstantaneousWaterHeaterPacket(props)),
            ElClass::GeneralLighting => ClassPacket::GeneralLighting(GeneralLightingPacket(props)),
            ElClass::MonoFunctionLighting => ClassPacket::MonoFunctionLighting(MonoFunctionLightingPacket(props)),
            ElClass::LightingSystem => ClassPacket::LightingSystem(LightingSystemPacket(props)),
            ElClass::Profile => ClassPacket::Profile(ProfilePacket(props)),
            _ => ClassPacket::Unimplemented(UnimplementedPacket(eoj.class, props)),
        }
    }

    /// The properties that the packet holds.
    pub fn properties(&self) -> (r: &Properties)
        ensures
            *r == self.props(),
    {
        match self {
            ClassPacket::Unimplemented(p) => p.properties(),
            ClassPacket::SolarPower(p) => p.properties(),
            ClassPacket::StorageBattery(p) => p.properties(),
            ClassPacket::Evps(p) => p.properties(),
            ClassPacket::Hp(p) => p.properties(),
            ClassPacket::SmartMeter(p) => p.properties(),
            ClassPacket::AirConditioner(p) => p.properties(),
            ClassPacket::Metering(p) => p.properties(),
            ClassPacket::FuelCell(p) => p.properties(),
            ClassPacket::InstantaneousWaterHeater(p) => p.properties(),
            ClassPacket::GeneralLighting(p) => p.properties(),
            ClassPacket::MonoFunctionLighting(p) => p.properties(),
            ClassPacket::LightingSystem(p) => p.properties(),
            ClassPacket::Profile(p) => p.properties(),
        }
    }
}

impl From<ElPacket> for ClassPacket {
    fn from(value: ElPacket) -> (r: ClassPacket) {
        ClassPacket::new(value.seoj, value.props)
    }
}

impl FromSpecImpl<ElPacket> for ClassPacket {
    open spec fn obeys_from_spec() -> bool {
        true
    }

    open spec fn from_spec(value: ElPacket) -> ClassPacket {
        class_packet(value.seoj, value.props)
    }
}

/// The property code of the list of the instances of a node.
pub const INSTANCE_LIST_EPC: u8 = 0xD6;

/// The data of a property that lists the instances of a node: the number of
/// instances, then three bytes for each.
#[derive(Debug, PartialEq, Eq)]
pub struct InstanceList(pub Edt);

/// The objects that the bytes of an instance list name: the first byte is
/// their number, and three bytes follow for each. Bytes that are not laid
/// out so name no objects.
pub open spec fn listed_objects(bytes: Seq<u8>) -> Seq<EchonetObject> {
    if bytes.len() >= 1 && bytes.len() == 1 + 3 * bytes[0] {
        Seq::new(
            bytes[0] as nat,
            |i: int| EchonetObject::of(bytes[1 + 3 * i], bytes[2 + 3 * i], bytes[3 + 3 * i]),
        )
    } else {
        Seq::empty()
    }
}

impl InstanceList {
    /// The instance list that `property` holds, if it is the property of
    /// instance lists.
    pub fn of_property(property: &Property) -> (r: Option<InstanceList>)
        ensures
            property.epc == INSTANCE_LIST_EPC ==> (r matches Some(list) && list.0@ == property.edt@),
            property.epc != INSTANCE_LIST_EPC ==> r is None,
    {
        if property.epc == INSTANCE_LIST_EPC {
            Some(InstanceList(property.edt.clone()))
        } else {
            None
        }
    }

    /// The objects that the list names, in order; none at all when the
    /// bytes are not laid out as a list.
    pub fn objects(&self) -> (r: Vec<EchonetObject>)
        ensures
            r@ == listed_objects(self.0@),
    {
        let bytes: &[u8] = self.0.0.as_slice();
        let mut out: Vec<EchonetObject> = Vec::new();
        if bytes.len() == 0 {
            return out;
        }
        let count: usize = bytes[0] as usize;
        if bytes.len() - 1 != 3 * count {
            return out;
        }
        let mut i: usize = 0;
        while i < count
            invariant
                i <= count,
                count == bytes@[0],
                bytes@.len() == 1 + 3 * count,
                out@.len() == i,
                forall|j: int|
                    0 <= j < i ==> #[trigger] out@[j] == EchonetObject::of(
                        bytes@[1 + 3 * j],
                        bytes@[2 + 3 * j],
                        bytes@[3 + 3 * j],
                    ),
            decreases count - i,
        {
            let at: usize = 1 + 3 * i;
            out.push(EchonetObject::from([bytes[at], bytes[at + 1], bytes[at + 2]]));
            i = i + 1;
        }
        assert(out@ =~= listed_objects(self.0@));
        out
    }
}

/// The first instance list among `props`.
pub open spec fn first_instance_list(props: Seq<crate::el_packet::PropertyView>) -> Option<Seq<u8>>
    decreases props.len(),
{
    if props.len() == 0 {
        None
    } else if props[0].epc == INSTANCE_LIST_EPC {
        Some(props[0].edt)
    } else {
        first_instance_list(props.skip(1))
    }
}

impl ProfilePacket {
    /// The first instance list among the properties of the packet, `None`
    /// when there is none.
    pub fn instances(&self) -> (r: Option<InstanceList>)
        ensures
            match first_instance_list(self.0@) {
                Some(bytes) => r matches Some(list) && list.0@ == bytes,
                None => r is None,
            },
    {
        let ghost all = self.0@;
        let mut i: usize = 0;
        proof {
            assert(all.skip(0) =~= all);
        }
        while i < self.0.num()
            invariant
                all == self.0@,
                i <= all.len(),
                first_instance_list(all) == first_instance_list(all.skip(i as int)),
            decreases all.len() - i,
        {
            match self.0.get(i) {
                Some(p) => {
                    let found: Option<InstanceList> = InstanceList::of_property(p);
                    proof {
                        assert(all.skip(i as int)[0] == all[i as int]);
                        assert(all.skip(i as int).skip(1) =~= all.skip(i + 1));
                    }
                    if found.is_some() {
                        return found;
                    }
                },
                None => {},
            }
            i = i + 1;
        }
        None
    }
}

} // verus!
