//! The advertisement payload: flags, complete local name and the list of
//! 16-bit service identifiers, each as one length-prefixed structure.

use crate::host;
use vstd::prelude::*;
use vstd::slice::slice_to_vec;
use vstd::string::StringSliceAdditionalSpecFns;

verus! {

/// Most bytes that legacy advertising data can hold.
pub const ADVERTISEMENT_CAPACITY: usize = 31;

/// Type byte of the flags structure.
pub const AD_TYPE_FLAGS: u8 = 0x01;

/// Type byte of the list of 16-bit service identifiers.
pub const AD_TYPE_SERVICE_UUIDS16: u8 = 0x02;

/// Type byte of the complete local name.
pub const AD_TYPE_COMPLETE_LOCAL_NAME: u8 = 0x09;

/// The flags this device advertises: general discoverable, no BR/EDR.
pub const ADVERTISED_FLAGS: u8 = 0b0000_0110;

/// One structure of the advertisement payload.
pub enum AdField {
    /// Discoverability flags.
    Flags(u8),
    /// The full device name, as bytes.
    CompleteLocalName(Vec<u8>),
    /// 16-bit service identifiers, each low byte first.
    ServiceUuids16(Vec<[u8; 2]>),
}

/// The services that the device names in its advertisement.
#[derive(Debug, Clone, Copy, PartialEq, Eq, Structural)]
pub enum Service {
    HumanInterfaceDevice,
    Battery,
}

impl Service {
    /// The 16-bit identifier of the service, low byte first.
    pub open spec fn uuid(self) -> Seq<u8> {
        match self {
            Service::HumanInterfaceDevice => seq![0x12u8, 0x18u8],
            Service::Battery => seq![0x0fu8, 0x18u8],
        }
    }

    /// The 16-bit identifier of the service, low byte first, as the host
    /// knows it.
    pub fn uuid_bytes(&self) -> (uuid: [u8; 2])
        ensures
            uuid@ == self.uuid(),
    {
        host::service_uuid(*self)
    }
}

/// Why no payload was built.
#[derive(Debug, Clone, Copy, PartialEq, Eq, Structural)]
pub enum AdvertiseError {
    /// The structures do not fit into the advertising data.
    InsufficientSpace,
}

/// The length byte of a structure whose type byte and payload take `n`
/// bytes: `n` cut to eight bits.
pub open spec fn length_byte(n: nat) -> u8 {
    (n % 256) as u8
}

/// The identifiers one after the other, two bytes each.
pub open spec fn uuid_bytes(uuids: Seq<[u8; 2]>) -> Seq<u8> {
    Seq::new(2 * uuids.len(), |i: int| uuids[i / 2]@[i % 2])
}

impl AdField {
    /// The bytes of one structure: length, type, payload.
    pub open spec fn bytes(self) -> Seq<u8> {
        match self {
            AdField::Flags(flags) => seq![0x02u8, AD_TYPE_FLAGS, flags],
            AdField::CompleteLocalName(name) => seq![
                length_byte(name@.len() + 1),
                AD_TYPE_COMPLETE_LOCAL_NAME,
            ] + name@,
            AdField::ServiceUuids16(uuids) => seq![
                length_byte(2 * uuids@.len() + 1),
                AD_TYPE_SERVICE_UUIDS16,
            ] + uuid_bytes(uuids@),
        }
    }
}

/// The bytes of a run of structures, in order.
pub open spec fn encoded(fields: Seq<AdField>) -> Seq<u8>
    decreases fields.len(),
{
    if fields.len() == 0 {
        Seq::empty()
    } else {
        encoded(fields.drop_last()) + fields.last().bytes()
    }
}

/// The payload for a device of this name that offers these services.
pub open spec fn advertisement(name: Seq<u8>, services: Seq<[u8; 2]>) -> Seq<u8> {
    seq![0x02u8, AD_TYPE_FLAGS, ADVERTISED_FLAGS] + seq![
        length_byte(name.len() + 1),
        AD_TYPE_COMPLETE_LOCAL_NAME,
    ] + name + seq![length_byte(2 * services.len() + 1), AD_TYPE_SERVICE_UUIDS16] + uuid_bytes(
        services,
    )
}

/// Length of that payload: seven bytes of framing, the name, and two bytes
/// for each service.
pub open spec fn advertisement_len(name: Seq<u8>, services: Seq<[u8; 2]>) -> nat {
    7 + name.len() + 2 * services.len()
}

/// The services this device offers: HID first, then battery.
pub fn offered_services() -> (services: Vec<[u8; 2]>)
    ensures
        services@.len() == 2,
        services@[0]@ == Service::HumanInterfaceDevice.uuid(),
        services@[1]@ == Service::Battery.uuid(),
        uuid_bytes(services@) == seq![0x12u8, 0x18u8, 0x0fu8, 0x18u8],
{
    let mut services: Vec<[u8; 2]> = Vec::new();
    services.push(Service::HumanInterfaceDevice.uuid_bytes());
    services.push(Service::Battery.uuid_bytes());
    assert(uuid_bytes(services@) =~= seq![0x12u8, 0x18u8, 0x0fu8, 0x18u8]);
    services
}

/// Builds the advertisement payload: flags, the complete local name, the
/// list of service identifiers. Fails when the three structures take more
/// than the advertising data holds.
pub fn advertisement_data(name: &str, services: Vec<[u8; 2]>) -> (r: Result<
    Vec<u8>,
    AdvertiseError,
>)
    ensures
        r is Ok <==> advertisement_len(name.spec_bytes(), services@) <= ADVERTISEMENT_CAPACITY,
        r matches Ok(data) ==> data@ == advertisement(name.spec_bytes(), services@),
        r matches Err(e) ==> e == AdvertiseError::InsufficientSpace,
{
    let discoverable: u8 = host::le_general_discoverable();
    let no_br_edr: u8 = host::br_edr_not_supported();
    let flags: u8 = discoverable | no_br_edr;
    assert(flags == ADVERTISED_FLAGS) by (bit_vector)
        requires
            flags == discoverable | no_br_edr,
            discoverable == 0b0000_0010u8,
            no_br_edr == 0b0000_0100u8,
    ;
    let name_bytes: Vec<u8> = slice_to_vec(name.as_bytes());
    let ghost name_seq = name.spec_bytes();
    let ghost service_seq = services@;
    let mut fields: Vec<AdField> = Vec::new();
    fields.push(AdField::Flags(flags));
    fields.push(AdField::CompleteLocalName(name_bytes));
    fields.push(AdField::ServiceUuids16(services));
    proof {
        let f = fields@;
        reveal_with_fuel(encoded, 4);
        assert(f.drop_last().drop_last().drop_last() =~= Seq::<AdField>::empty());
        assert(f.drop_last().last() == f[1]);
        assert(f.drop_last().drop_last().last() == f[0]);
        assert(encoded(f) =~= f[0].bytes() + f[1].bytes() + f[2].bytes());
        assert(encoded(f).len() == advertisement_len(name_seq, service_seq));
        assert(encoded(f) =~= advertisement(name_seq, service_seq));
    }
    match host::encode_slice(&fields, ADVERTISEMENT_CAPACITY) {
        Ok(data) => Ok(data),
        Err(_) => Err(AdvertiseError::InsufficientSpace),
    }
}

} // verus!
