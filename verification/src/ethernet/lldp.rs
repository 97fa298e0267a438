//! LLDP: the type-length-value units by which a station describes itself
//! to its neighbours.

use vstd::prelude::*;
use crate::bytes::{spec_u16_be, push_u16_be};

verus! {

/// The first length that a unit's value cannot have: the length field has 9
/// bits.
pub const VALUE_LIMIT: usize = 512;

/// The kind of a unit.
#[derive(Debug, Clone, Copy, PartialEq, Eq, Structural)]
pub enum TlvType {
    End,
    ChassisId,
    PortId,
    TimeToLive,
    PortDescription,
    SystemName,
    SystemDescription,
    SystemCapabilities,
    ManagementAddress,
    Custom,
}

impl TlvType {
    /// The number of the kind: 7 bits.
    pub open spec fn spec_code(self) -> u16 {
        match self {
            TlvType::End => 0,
            TlvType::ChassisId => 1,
            TlvType::PortId => 2,
            TlvType::TimeToLive => 3,
            TlvType::PortDescription => 4,
            TlvType::SystemName => 5,
            TlvType::SystemDescription => 6,
            TlvType::SystemCapabilities => 7,
            TlvType::ManagementAddress => 8,
            TlvType::Custom => 127,
        }
    }

    /// The number of the kind.
    pub fn code(self) -> (c: u16)
        ensures
            c == self.spec_code(),
    {
        match self {
            TlvType::End => 0,
            TlvType::ChassisId => 1,
            TlvType::PortId => 2,
            TlvType::TimeToLive => 3,
            TlvType::PortDescription => 4,
            TlvType::SystemName => 5,
            TlvType::SystemDescription => 6,
            TlvType::SystemCapabilities => 7,
            TlvType::ManagementAddress => 8,
            TlvType::Custom => 127,
        }
    }
}

/// What a unit holds, as mathematical values.
pub ghost struct TlvView {
    pub type_length: u16,
    pub value: Seq<u8>,
}

/// One unit: its kind and the length of its value in one word, `kind << 9 |
/// length`, and the value.
#[derive(Debug, PartialEq, Eq)]
pub struct TypeLengthValue {
    type_length: u16,
    value: Vec<u8>,
}

impl View for TypeLengthValue {
    type V = TlvView;

    closed spec fn view(&self) -> TlvView {
        TlvView { type_length: self.type_length, value: self.value@ }
    }
}

impl TlvView {
    /// The unit of kind `t` with the value `payload`, which is shorter than
    /// 512 octets.
    pub open spec fn of(t: TlvType, payload: Seq<u8>) -> TlvView {
        TlvView { type_length: (t.spec_code() * 512 + payload.len()) as u16, value: payload }
    }

    /// The unit on the wire: the word, then the value.
    pub open spec fn encode(self) -> Seq<u8> {
        spec_u16_be(self.type_length) + self.value
    }
}

/// The units on the wire, one after the other.
pub open spec fn encode_all(units: Seq<TlvView>) -> Seq<u8>
    decreases units.len(),
{
    if units.len() == 0 {
        Seq::empty()
    } else {
        encode_all(units.drop_last()) + units.last().encode()
    }
}

/// The views of the units.
pub open spec fn unit_views(units: Seq<TypeLengthValue>) -> Seq<TlvView> {
    units.map_values(|u: TypeLengthValue| u@)
}

impl TypeLengthValue {
    /// The unit of kind `t` with the value `payload`. `None` where the value
    /// has 512 octets or more.
    pub fn new(t: TlvType, payload: Vec<u8>) -> (unit: Option<Self>)
        ensures
            payload@.len() >= VALUE_LIMIT ==> unit is None,
            payload@.len() < VALUE_LIMIT ==> unit is Some && unit.unwrap()@ == TlvView::of(
                t,
                payload@,
            ),
    {
        if payload.len() >= VALUE_LIMIT {
            None
        } else {
            Some(Self { type_length: t.code() * 512 + payload.len() as u16, value: payload })
        }
    }

    pub fn to_vec(&self) -> (v: Vec<u8>)
        ensures
            v@ == self@.encode(),
    {
        let mut res: Vec<u8> = Vec::new();
        push_u16_be(&mut res, self.type_length);
        res.extend_from_slice(self.value.as_slice());
        res
    }
}

/// The flag of a bridge.
pub const BRIDGE: u8 = 0b0000_0001;

/// The flag of a DOCSIS cable device.
pub const DOCSIS: u8 = 0b0000_0010;

/// The flag of any other kind of station.
pub const OTHER: u8 = 0b0000_0100;

/// The flag of a repeater.
pub const REPEATER: u8 = 0b0000_1000;

/// The flag of a router.
pub const ROUTER: u8 = 0b0001_0000;

/// The flag of an end station.
pub const STATION: u8 = 0b0010_0000;

/// The flag of a telephone.
pub const TELEPHONE: u8 = 0b0100_0000;

/// The flag of a WLAN access point.
pub const WLAN: u8 = 0b1000_0000;

/// What a station can do: one flag for each capability.
#[derive(Debug, Clone, Copy, PartialEq, Eq, Structural)]
pub struct Capabilities {
    pub bits: u8,
}

impl Capabilities {
    /// The capabilities with the given flags.
    pub fn from_bits(bits: u8) -> (c: Self)
        ensures
            c.bits == bits,
    {
        Self { bits }
    }

    pub fn bits(self) -> (b: u8)
        ensures
            b == self.bits,
    {
        self.bits
    }
}

/// An LLDP packet: its octets.
#[derive(Debug, PartialEq, Eq)]
pub struct LLDPPacket(pub Vec<u8>);

/// The packet of a station: the units for its chassis, its port and its
/// time to live, then the units `tlvs`, then the unit that ends the packet.
/// The three values are shorter than 512 octets.
pub fn build_lldp_packet(
    chassis_id: Vec<u8>,
    port_id: Vec<u8>,
    time_to_live: Vec<u8>,
    tlvs: &[TypeLengthValue],
) -> (packet: LLDPPacket)
    requires
        chassis_id@.len() < VALUE_LIMIT,
        port_id@.len() < VALUE_LIMIT,
        time_to_live@.len() < VALUE_LIMIT,
    ensures
        packet.0@ == TlvView::of(TlvType::ChassisId, chassis_id@).encode() + TlvView::of(
            TlvType::PortId,
            port_id@,
        ).encode() + TlvView::of(TlvType::TimeToLive, time_to_live@).encode() + encode_all(
            unit_views(tlvs@),
        ) + TlvView::of(TlvType::End, Seq::empty()).encode(),
{
    let mut res: Vec<u8> = Vec::new();
    let chassis = TypeLengthValue::new(TlvType::ChassisId, chassis_id).unwrap();
    let port = TypeLengthValue::new(TlvType::PortId, port_id).unwrap();
    let ttl = TypeLengthValue::new(TlvType::TimeToLive, time_to_live).unwrap();
    let end = TypeLengthValue::new(TlvType::End, Vec::new()).unwrap();
    res.extend_from_slice(chassis.to_vec().as_slice());
    res.extend_from_slice(port.to_vec().as_slice());
    res.extend_from_slice(ttl.to_vec().as_slice());
    let ghost head = res@;
    let ghost views = unit_views(tlvs@);
    let mut i: usize = 0;
    while i < tlvs.len()
        invariant
            i <= tlvs@.len(),
            views == unit_views(tlvs@),
            res@ == head + encode_all(views.subrange(0, i as int)),
        decreases tlvs@.len() - i,
    {
        res.extend_from_slice(tlvs[i].to_vec().as_slice());
        proof {
            let next = views.subrange(0, i + 1);
            assert(next.drop_last() =~= views.subrange(0, i as int));
            assert(next.last() == tlvs@[i as int]@);
            assert(res@ =~= head + encode_all(next));
        }
        i += 1;
    }
    assert(views.subrange(0, i as int) =~= views);
    res.extend_from_slice(end.to_vec().as_slice());
    assert(end@.value =~= Seq::<u8>::empty());
    LLDPPacket(res)
}

/// The unit that tells the capabilities of a station.
pub fn capabilities_tlv(c: Capabilities) -> (unit: TypeLengthValue)
    ensures
        unit@ == TlvView::of(TlvType::SystemCapabilities, seq![c.bits]),
{
    let mut value: Vec<u8> = Vec::new();
    value.push(c.bits());
    assert(value@ =~= seq![c.bits]);
    TypeLengthValue::new(TlvType::SystemCapabilities, value).unwrap()
}

} // verus!
