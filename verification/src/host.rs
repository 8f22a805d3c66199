//! What this crate takes on trust from the BLE host stack, `trouble_host`.
//!
//! Nothing in this file is proved. Each item names the function or value it
//! stands for and says what is claimed of it.

use crate::advertising::{encoded, AdField, Service};
use crate::security::SecurityLevel;
use trouble_host::prelude::service;
use trouble_host::prelude::AdStructure;
use vstd::prelude::*;

verus! {

/// `trouble_host::BondInformation`: the key material of one bond. The crate
/// stores and hands on such a value and never looks inside.
#[verifier::external_type_specification]
#[verifier::external_body]
pub struct ExBondInformation(trouble_host::BondInformation);

/// `trouble_host::Error`: the host's error type, as `encode_slice` reports it.
#[verifier::external_type_specification]
#[verifier::external_body]
pub struct ExHostError(trouble_host::Error);

/// `AdStructure::encode_slice`, on a destination buffer of `capacity` bytes.
///
/// Claimed: the call succeeds exactly when the structures, written one
/// after the other, fit into the buffer, and then the bytes written are
/// those of `encoded`: each structure as its length byte (the payload's
/// length plus one, cut to eight bits as the host does), its type byte and
/// its payload.
#[verifier::external_body]
pub(crate) fn encode_slice(fields: &Vec<AdField>, capacity: usize) -> (r: Result<
    Vec<u8>,
    trouble_host::Error,
>)
    requires
        capacity <= u16::MAX,
    ensures
        r is Ok <==> encoded(fields@).len() <= capacity,
        r matches Ok(bytes) ==> bytes@ == encoded(fields@),
{
    let items: Vec<AdStructure<'_>> = fields.iter().map(
        |field| match field {
            AdField::Flags(flags) => AdStructure::Flags(*flags),
            AdField::CompleteLocalName(name) => AdStructure::CompleteLocalName(name),
            AdField::ServiceUuids16(uuids) => AdStructure::ServiceUuids16(uuids),
        },
    ).collect();
    let mut dest = vec![0u8; capacity];
    let len = AdStructure::encode_slice(&items, &mut dest)?;
    dest.truncate(len);
    Ok(dest)
}

/// `trouble_host::advertise::LE_GENERAL_DISCOVERABLE`, bit 1 of the flags.
#[verifier::external_body]
pub(crate) fn le_general_discoverable() -> (flag: u8)
    ensures
        flag == 0b0000_0010,
{
    trouble_host::advertise::LE_GENERAL_DISCOVERABLE
}

/// `trouble_host::advertise::BR_EDR_NOT_SUPPORTED`, bit 2 of the flags.
#[verifier::external_body]
pub(crate) fn br_edr_not_supported() -> (flag: u8)
    ensures
        flag == 0b0000_0100,
{
    trouble_host::advertise::BR_EDR_NOT_SUPPORTED
}

/// `BluetoothUuid16::to_le_bytes`, on the host's constants
/// `service::HUMAN_INTERFACE_DEVICE` and `service::BATTERY`: the assigned
/// numbers 0x1812 and 0x180f, low byte first.
#[verifier::external_body]
pub(crate) fn service_uuid(service: Service) -> (uuid: [u8; 2])
    ensures
        uuid@ == service.uuid(),
{
    let uuid = match service {
        Service::HumanInterfaceDevice => service::HUMAN_INTERFACE_DEVICE,
        Service::Battery => service::BATTERY,
    };
    uuid.to_le_bytes()
}

/// `trouble_host::prelude::SecurityLevel::authenticated`: true for the
/// encrypted and authenticated level and for no other.
#[verifier::external_body]
pub(crate) fn authenticated(level: SecurityLevel) -> (yes: bool)
    ensures
        yes == (level == SecurityLevel::EncryptedAuthenticated),
{
    let level = match level {
        SecurityLevel::NoEncryption => trouble_host::prelude::SecurityLevel::NoEncryption,
        SecurityLevel::Encrypted => trouble_host::prelude::SecurityLevel::Encrypted,
        SecurityLevel::EncryptedAuthenticated => {
            trouble_host::prelude::SecurityLevel::EncryptedAuthenticated
        },
    };
    level.authenticated()
}

} // verus!
