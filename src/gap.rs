//! GAP events: pairing, device discovery and procedure completion.

use vstd::prelude::*;
use crate::error::{vendor_error, Error, EventError};
use crate::types::{BdAddrBuffer, ConnectionHandle};
use crate::wire::{
    copy_array, copy_padded, exact_len_error, first_error, le16, min_len_error, read_u16,
    require_len, require_len_at_least, zero_padded,
};

verus! {

/// The end of a pairing procedure.
#[derive(Clone, Copy, Debug)]
pub struct GapPairingComplete {
    /// Connection handle on which the pairing procedure completed.
    pub conn_handle: ConnectionHandle,
    /// How the pairing ended.
    pub status: GapPairingStatus,
}

/// How a pairing procedure ended.
#[derive(Clone, Copy, Debug, PartialEq, Eq, Structural)]
pub enum GapPairingStatus {
    /// Pairing with the remote device succeeded.
    Success,
    /// The SMP timeout elapsed.
    Timeout,
    /// Pairing with the remote device failed.
    Failed,
}

/// The pairing status that a byte names, or the error that carries it.
pub open spec fn pairing_status_of(value: u8) -> Result<GapPairingStatus, Error> {
    match value {
        0 => Ok(GapPairingStatus::Success),
        1 => Ok(GapPairingStatus::Timeout),
        2 => Ok(GapPairingStatus::Failed),
        _ => Err(Error::BadGapPairingStatus(value)),
    }
}

impl TryFrom<u8> for GapPairingStatus {
    type Error = Error;

    /// Maps the status byte of the GapPairingComplete event.
    fn try_from(value: u8) -> (r: Result<GapPairingStatus, Error>) {
        match value {
            0 => Ok(GapPairingStatus::Success),
            1 => Ok(GapPairingStatus::Timeout),
            2 => Ok(GapPairingStatus::Failed),
            _ => Err(Error::BadGapPairingStatus(value)),
        }
    }
}

impl vstd::std_specs::convert::TryFromSpecImpl<u8> for GapPairingStatus {
    open spec fn obeys_try_from_spec() -> bool {
        true
    }

    open spec fn try_from_spec(value: u8) -> Result<GapPairingStatus, Error> {
        pairing_status_of(value)
    }
}

/// The error of a GapPairingComplete buffer, if any: 5 bytes, the status at byte 4.
pub open spec fn pairing_complete_error(b: Seq<u8>) -> Option<EventError> {
    first_error(exact_len_error(b, 5), vendor_error(pairing_status_of(b[4])))
}

/// The fields of a valid GapPairingComplete buffer.
pub open spec fn pairing_complete_fields(b: Seq<u8>, x: GapPairingComplete) -> bool {
    &&& x.conn_handle.0 as int == le16(b, 2)
    &&& pairing_status_of(b[4]) == Ok::<GapPairingStatus, Error>(x.status)
}

/// Decodes the GapPairingComplete event.
pub(crate) fn to_gap_pairing_complete(buffer: &[u8]) -> (r: Result<GapPairingComplete, EventError>)
    ensures
        match r {
            Ok(x) => pairing_complete_error(buffer@) is None && pairing_complete_fields(buffer@, x),
            Err(e) => pairing_complete_error(buffer@) == Some(e),
        },
{
    require_len(buffer, 5)?;
    let conn_handle = ConnectionHandle(read_u16(buffer, 2));
    match GapPairingStatus::try_from(buffer[4]) {
        Ok(status) => Ok(GapPairingComplete { conn_handle, status }),
        Err(e) => Err(EventError::Vendor(e)),
    }
}

/// The capacity of the advertising data of a found device: an event holds at most 255 bytes,
/// of which 12 are fixed.
pub const MAX_DEVICE_FOUND_DATA_LEN: usize = 243;

/// A device discovered while scanning.
#[derive(Clone, Copy, Debug)]
pub struct GapDeviceFound {
    /// Type of event.
    pub event: GapDeviceFoundEvent,
    /// Address of the device.
    pub bdaddr: BdAddr,
    /// Number of valid bytes in `data`.
    pub data_len: usize,
    /// Advertising or scan response data; the bytes past `data_len` are zero.
    pub data: [u8; MAX_DEVICE_FOUND_DATA_LEN],
    /// Received signal strength, in dBm.
    pub rssi: i8,
}

/// The kind of report that found a device.
#[derive(Clone, Copy, Debug, PartialEq, Eq, Structural)]
pub enum GapDeviceFoundEvent {
    /// Connectable undirected advertising.
    Advertisement,
    /// Connectable directed advertising.
    DirectAdvertisement,
    /// Scannable undirected advertising.
    Scan,
    /// Non-connectable undirected advertising.
    NonConnectableAdvertisement,
    /// Scan response.
    ScanResponse,
}

/// The report kind that a byte names, or the error that carries it.
pub open spec fn device_found_event_of(value: u8) -> Result<GapDeviceFoundEvent, Error> {
    match value {
        0 => Ok(GapDeviceFoundEvent::Advertisement),
        1 => Ok(GapDeviceFoundEvent::DirectAdvertisement),
        2 => Ok(GapDeviceFoundEvent::Scan),
        3 => Ok(GapDeviceFoundEvent::NonConnectableAdvertisement),
        4 => Ok(GapDeviceFoundEvent::ScanResponse),
        _ => Err(Error::BadGapDeviceFoundEvent(value)),
    }
}

impl TryFrom<u8> for GapDeviceFoundEvent {
    type Error = Error;

    /// Maps the event type byte of the GapDeviceFound event.
    fn try_from(value: u8) -> (r: Result<GapDeviceFoundEvent, Error>) {
        match value {
            0 => Ok(GapDeviceFoundEvent::Advertisement),
            1 => Ok(GapDeviceFoundEvent::DirectAdvertisement),
            2 => Ok(GapDeviceFoundEvent::Scan),
            3 => Ok(GapDeviceFoundEvent::NonConnectableAdvertisement),
            4 => Ok(GapDeviceFoundEvent::ScanResponse),
            _ => Err(Error::BadGapDeviceFoundEvent(value)),
        }
    }
}

impl vstd::std_specs::convert::TryFromSpecImpl<u8> for GapDeviceFoundEvent {
    open spec fn obeys_try_from_spec() -> bool {
        true
    }

    open spec fn try_from_spec(value: u8) -> Result<GapDeviceFoundEvent, Error> {
        device_found_event_of(value)
    }
}

/// A device address with its kind.
#[derive(Clone, Copy, Debug, PartialEq, Eq)]
pub enum BdAddr {
    /// Public address.
    Public(BdAddrBuffer),
    /// Random address.
    Random(BdAddrBuffer),
}

/// The address that a type byte and six address bytes give, or the error that carries the type.
pub open spec fn bdaddr_of(bd_addr_type: u8, addr: BdAddrBuffer) -> Result<BdAddr, Error> {
    match bd_addr_type {
        0 => Ok(BdAddr::Public(addr)),
        1 => Ok(BdAddr::Random(addr)),
        _ => Err(Error::BadGapBdAddrType(bd_addr_type)),
    }
}

fn to_bdaddr(bd_addr_type: u8, addr: BdAddrBuffer) -> (r: Result<BdAddr, Error>)
    ensures
        r == bdaddr_of(bd_addr_type, addr),
{
    match bd_addr_type {
        0 => Ok(BdAddr::Public(addr)),
        1 => Ok(BdAddr::Random(addr)),
        _ => Err(Error::BadGapBdAddrType(bd_addr_type)),
    }
}

/// The error for an address type byte other than public (0) or random (1).
pub open spec fn bd_addr_type_error(bd_addr_type: u8) -> Option<EventError> {
    if bd_addr_type == 0 || bd_addr_type == 1 {
        None
    } else {
        Some(EventError::Vendor(Error::BadGapBdAddrType(bd_addr_type)))
    }
}

/// The RSSI byte that means that no reading is available.
pub const RSSI_UNAVAILABLE: i8 = 127;

/// The signed value of a byte in two's complement.
pub open spec fn signed_byte(v: u8) -> int {
    if v < 128 {
        v as int
    } else {
        v - 256
    }
}

/// The error of a GapDeviceFound buffer, if any: at least 12 bytes, exactly 12 plus the data
/// length at byte 10, a last byte (the RSSI) other than 127, then the event type at byte 2 and
/// the address type at byte 3.
pub open spec fn device_found_error(b: Seq<u8>) -> Option<EventError> {
    first_error(
        min_len_error(b, 12),
        first_error(
            exact_len_error(b, (12 + b[10]) as usize),
            if b[b.len() - 1] == 127 {
                Some(EventError::Vendor(Error::GapRssiUnavailable))
            } else {
                first_error(
                    vendor_error(device_found_event_of(b[2])),
                    bd_addr_type_error(b[3]),
                )
            },
        ),
    )
}

/// The six address bytes that start at `at`.
pub open spec fn addr_at(b: Seq<u8>, at: int, addr: BdAddrBuffer) -> bool {
    addr.0@ == b.subrange(at, at + 6)
}

/// The fields of a valid GapDeviceFound buffer: the address at bytes 4 to 9, the data between
/// byte 11 and the RSSI in the last byte.
pub open spec fn device_found_fields(b: Seq<u8>, x: GapDeviceFound) -> bool {
    &&& device_found_event_of(b[2]) == Ok::<GapDeviceFoundEvent, Error>(x.event)
    &&& match x.bdaddr {
        BdAddr::Public(addr) => b[3] == 0 && addr_at(b, 4, addr),
        BdAddr::Random(addr) => b[3] == 1 && addr_at(b, 4, addr),
    }
    &&& x.data_len == b[10] as usize
    &&& x.data@ == zero_padded(b.subrange(11, b.len() - 1), MAX_DEVICE_FOUND_DATA_LEN as nat)
    &&& x.rssi as int == signed_byte(b[b.len() - 1])
}

/// Decodes the GapDeviceFound event.
pub(crate) fn to_gap_device_found(buffer: &[u8]) -> (r: Result<GapDeviceFound, EventError>)
    requires
        buffer@.len() <= 255,
    ensures
        match r {
            Ok(x) => device_found_error(buffer@) is None && device_found_fields(buffer@, x),
            Err(e) => device_found_error(buffer@) == Some(e),
        },
{
    require_len_at_least(buffer, 12)?;
    let data_len = buffer[10] as usize;
    require_len(buffer, 12 + data_len)?;

    let raw_rssi = buffer[buffer.len() - 1];
    let rssi: i8 = if raw_rssi < 128 {
        raw_rssi as i8
    } else {
        (raw_rssi as i16 - 256) as i8
    };
    if rssi == RSSI_UNAVAILABLE {
        return Err(EventError::Vendor(Error::GapRssiUnavailable));
    }

    let event = match GapDeviceFoundEvent::try_from(buffer[2]) {
        Ok(event) => event,
        Err(e) => return Err(EventError::Vendor(e)),
    };
    let addr = BdAddrBuffer(copy_array(buffer, 4));
    let bdaddr = match to_bdaddr(buffer[3], addr) {
        Ok(bdaddr) => bdaddr,
        Err(e) => return Err(EventError::Vendor(e)),
    };
    Ok(GapDeviceFound { event, bdaddr, data_len, data: copy_padded(buffer, 11, data_len), rssi })
}

/// A procedure that ended, with its status.
#[derive(Clone, Copy, Debug, PartialEq)]
pub struct GapProcedureComplete {
    /// The procedure that completed.
    pub procedure: GapProcedure,
    /// Its status.
    pub status: GapProcedureStatus,
}

/// The capacity of a discovered name: an event holds at most 255 bytes, of which 4 are fixed.
pub const MAX_NAME_LEN: usize = 251;

/// The name found by the name discovery procedure; bytes past its length are zero.
#[derive(Clone, Copy, Debug)]
pub struct NameBuffer(pub [u8; MAX_NAME_LEN]);

impl PartialEq for NameBuffer {
    fn eq(&self, other: &NameBuffer) -> (r: bool) {
        let mut i: usize = 0;
        while i < MAX_NAME_LEN
            invariant
                i <= MAX_NAME_LEN,
                self.0@.len() == MAX_NAME_LEN,
                other.0@.len() == MAX_NAME_LEN,
                forall|j: int| 0 <= j < i ==> self.0@[j] == other.0@[j],
            decreases MAX_NAME_LEN - i,
        {
            if self.0[i] != other.0[i] {
                return false;
            }
            i += 1;
        }
        assert(self.0@ =~= other.0@);
        true
    }
}

impl vstd::std_specs::cmp::PartialEqSpecImpl for NameBuffer {
    open spec fn obeys_eq_spec() -> bool {
        true
    }

    open spec fn eq_spec(&self, other: &NameBuffer) -> bool {
        self.0@ == other.0@
    }
}

/// The procedures whose end GapProcedureComplete reports.
#[derive(Clone, Copy, Debug, PartialEq)]
pub enum GapProcedure {
    /// Limited discovery.
    LimitedDiscovery,
    /// General discovery.
    GeneralDiscovery,
    /// Name discovery, with the length of the name and the name.
    NameDiscovery(usize, NameBuffer),
    /// Auto connection establishment.
    AutoConnectionEstablishment,
    /// General connection establishment, with the reconnection address.
    GeneralConnectionEstablishment(BdAddrBuffer),
    /// Selective connection establishment.
    SelectiveConnectionEstablishment,
    /// Direct connection establishment.
    DirectConnectionEstablishment,
}

/// The status of a completed procedure.
#[derive(Clone, Copy, Debug, PartialEq, Eq, Structural)]
pub enum GapProcedureStatus {
    /// Success.
    Success,
    /// Failure.
    Failed,
    /// Failure because of authentication requirements.
    AuthFailure,
}

/// The procedure status that a byte names, or the error that carries it.
pub open spec fn procedure_status_of(value: u8) -> Result<GapProcedureStatus, Error> {
    match value {
        0x00 => Ok(GapProcedureStatus::Success),
        0x41 => Ok(GapProcedureStatus::Failed),
        0x05 => Ok(GapProcedureStatus::AuthFailure),
        _ => Err(Error::BadGapProcedureStatus(value)),
    }
}

impl TryFrom<u8> for GapProcedureStatus {
    type Error = Error;

    /// Maps the status byte of the GapProcedureComplete event.
    fn try_from(value: u8) -> (r: Result<GapProcedureStatus, Error>) {
        match value {
            0x00 => Ok(GapProcedureStatus::Success),
            0x41 => Ok(GapProcedureStatus::Failed),
            0x05 => Ok(GapProcedureStatus::AuthFailure),
            _ => Err(Error::BadGapProcedureStatus(value)),
        }
    }
}

impl vstd::std_specs::convert::TryFromSpecImpl<u8> for GapProcedureStatus {
    open spec fn obeys_try_from_spec() -> bool {
        true
    }

    open spec fn try_from_spec(value: u8) -> Result<GapProcedureStatus, Error> {
        procedure_status_of(value)
    }
}

/// The error of a GapProcedureComplete buffer, if any: at least 4 bytes, a known procedure code
/// at byte 2 (name discovery needs at least 5 bytes, general connection establishment exactly
/// 10), then the status at byte 3.
pub open spec fn procedure_complete_error(b: Seq<u8>) -> Option<EventError> {
    first_error(
        min_len_error(b, 4),
        first_error(
            match b[2] {
                0x01 | 0x02 | 0x08 | 0x20 | 0x40 => None,
                0x04 => min_len_error(b, 5),
                0x10 => exact_len_error(b, 10),
                _ => Some(EventError::Vendor(Error::BadGapProcedure(b[2]))),
            },
            vendor_error(procedure_status_of(b[3])),
        ),
    )
}

/// The fields of a valid GapProcedureComplete buffer: the name or the address follow byte 3.
pub open spec fn procedure_complete_fields(b: Seq<u8>, x: GapProcedureComplete) -> bool {
    &&& procedure_status_of(b[3]) == Ok::<GapProcedureStatus, Error>(x.status)
    &&& match x.procedure {
        GapProcedure::LimitedDiscovery => b[2] == 0x01,
        GapProcedure::GeneralDiscovery => b[2] == 0x02,
        GapProcedure::NameDiscovery(len, name) => {
            &&& b[2] == 0x04
            &&& len == b.len() - 4
            &&& name.0@ == zero_padded(b.subrange(4, b.len() as int), MAX_NAME_LEN as nat)
        },
        GapProcedure::AutoConnectionEstablishment => b[2] == 0x08,
        GapProcedure::GeneralConnectionEstablishment(addr) => b[2] == 0x10 && addr_at(b, 4, addr),
        GapProcedure::SelectiveConnectionEstablishment => b[2] == 0x20,
        GapProcedure::DirectConnectionEstablishment => b[2] == 0x40,
    }
}

/// Decodes the GapProcedureComplete event.
pub(crate) fn to_gap_procedure_complete(buffer: &[u8]) -> (r: Result<
    GapProcedureComplete,
    EventError,
>)
    requires
        buffer@.len() <= 255,
    ensures
        match r {
            Ok(x) => procedure_complete_error(buffer@) is None && procedure_complete_fields(
                buffer@,
                x,
            ),
            Err(e) => procedure_complete_error(buffer@) == Some(e),
        },
{
    require_len_at_least(buffer, 4)?;

    let procedure = match buffer[2] {
        0x01 => GapProcedure::LimitedDiscovery,
        0x02 => GapProcedure::GeneralDiscovery,
        0x04 => {
            require_len_at_least(buffer, 5)?;
            let name_len = buffer.len() - 4;
            GapProcedure::NameDiscovery(name_len, NameBuffer(copy_padded(buffer, 4, name_len)))
        },
        0x08 => GapProcedure::AutoConnectionEstablishment,
        0x10 => {
            require_len(buffer, 10)?;
            GapProcedure::GeneralConnectionEstablishment(BdAddrBuffer(copy_array(buffer, 4)))
        },
        0x20 => GapProcedure::SelectiveConnectionEstablishment,
        0x40 => GapProcedure::DirectConnectionEstablishment,
        code => {
            return Err(EventError::Vendor(Error::BadGapProcedure(code)));
        },
    };

    match GapProcedureStatus::try_from(buffer[3]) {
        Ok(status) => Ok(GapProcedureComplete { procedure, status }),
        Err(e) => Err(EventError::Vendor(e)),
    }
}

/// The error of a GapReconnectionAddress buffer, if any: it is 8 bytes long.
pub open spec fn reconnection_address_error(b: Seq<u8>) -> Option<EventError> {
    exact_len_error(b, 8)
}

/// Decodes the GapReconnectionAddress event: the address at bytes 2 to 7.
pub(crate) fn to_gap_reconnection_address(buffer: &[u8]) -> (r: Result<BdAddrBuffer, EventError>)
    ensures
        match r {
            Ok(x) => reconnection_address_error(buffer@) is None && addr_at(buffer@, 2, x),
            Err(e) => reconnection_address_error(buffer@) == Some(e),
        },
{
    require_len(buffer, 8)?;
    Ok(BdAddrBuffer(copy_array(buffer, 2)))
}

/// A GapDeviceFound buffer of consistent length whose last byte is 127 is rejected as having no
/// RSSI, whatever its other fields hold.
pub proof fn lemma_rssi_unavailable(b: Seq<u8>)
    requires
        b.len() >= 12,
        b.len() == 12 + b[10],
        b[b.len() - 1] == 127,
    ensures
        device_found_error(b) == Some(EventError::Vendor(Error::GapRssiUnavailable)),
{
}

} // verus!
