//! Vendor-specific events of BlueNRG controllers, and the router that decodes them.

use vstd::prelude::*;
pub use crate::att_codes::{AttError, AttRequest};
pub use crate::error::{Error, EventError};
pub use crate::gap::{
    BdAddr, GapDeviceFound, GapDeviceFoundEvent, GapPairingComplete, GapPairingStatus,
    GapProcedure, GapProcedureComplete, GapProcedureStatus, NameBuffer, MAX_DEVICE_FOUND_DATA_LEN,
    MAX_NAME_LEN,
};
pub use crate::gatt::{
    AttExchangeMtuResponse, AttFindByTypeValueResponse, AttFindInformationResponse,
    AttPrepareWriteResponse, AttReadByGroupTypeResponse, AttReadByTypeResponse, AttReadResponse,
    AttErrorResponse, AttributeData, AttributeDataIterator, AttributeValue,
    GattAttributeModified, GattProcedureComplete, GattProcedureStatus, HandleInfoPair,
    HandleInfoPairIterator, HandleUuid128Pair, HandleUuid128PairIterator, HandleUuid16Pair,
    HandleUuid16PairIterator, HandleUuidPairIterator, HandleValuePair, HandleValuePairIterator,
    Uuid128, Uuid16,
};
pub use crate::hal::{CrashReason, EventFlags, FaultData, ResetReason, MAX_DEBUG_DATA_LEN};
pub use crate::l2cap::{
    L2CapConnectionUpdateRequest, L2CapConnectionUpdateResponse, L2CapConnectionUpdateResult,
    L2CapProcedureTimeout, L2CapRejectionReason,
};
pub use crate::types::{AttributeHandle, BdAddrBuffer, ConnectionHandle, GroupEndHandle};
use crate::gap::{
    addr_at, device_found_error, device_found_fields, pairing_complete_error,
    pairing_complete_fields, procedure_complete_error, procedure_complete_fields,
    reconnection_address_error, to_gap_device_found, to_gap_pairing_complete,
    to_gap_procedure_complete, to_gap_reconnection_address,
};
use crate::gatt::{
    att_error_response_error, att_error_response_fields, attribute_modified_error,
    attribute_modified_fields, attribute_value_error, attribute_value_fields,
    exchange_mtu_error, exchange_mtu_fields, find_by_type_value_error, find_by_type_value_fields,
    find_information_error, find_information_fields, gatt_procedure_complete_error,
    gatt_procedure_complete_fields, prepare_write_error, prepare_write_fields,
    read_by_group_type_error, read_by_group_type_fields, read_by_type_error, read_by_type_fields,
    read_response_error, read_response_fields, to_att_error_response, to_att_exchange_mtu_resp,
    to_att_find_by_value_type_response, to_att_find_information_response,
    to_att_prepare_write_response, to_att_read_by_group_type_response,
    to_att_read_by_type_response, to_att_read_response, to_attribute_value,
    to_gatt_attribute_modified, to_gatt_procedure_complete, to_write_permit_request,
    write_permit_error, write_permit_fields,
};
use crate::hal::{
    crash_report_error, crash_report_fields, hal_initialized_error, hal_initialized_fields,
    lost_event_error, lost_event_fields, to_crash_report, to_hal_initialized, to_lost_event,
};
use crate::l2cap::{
    connection_update_request_error, connection_update_request_fields,
    connection_update_response_error, connection_update_response_fields, procedure_timeout_error,
    procedure_timeout_fields, to_l2cap_connection_update_request,
    to_l2cap_connection_update_response, to_l2cap_procedure_timeout,
};
use crate::types::{conn_handle_error, conn_handle_fields, to_conn_handle};
use crate::wire::{le16, read_u16};

verus! {

/// The two controller firmware builds. They differ in which opcodes exist: EventsLost (0x0002),
/// CrashReport (0x0003) and GapAddressNotResolved (0x0408) are Extended only, and Standard has
/// GapReconnectionAddress at 0x0408 instead. Extended also reports the offset of a modified
/// attribute.
#[derive(Clone, Copy, Debug, PartialEq, Eq, Structural)]
pub enum BuildVariant {
    /// The original firmware.
    Standard,
    /// The firmware with the extended event set.
    Extended,
}

/// The firmware build that `BlueNRGEvent::new` decodes for.
pub const BUILD_VARIANT: BuildVariant = BuildVariant::Extended;

/// The vendor-specific events of BlueNRG controllers.
#[derive(Clone, Copy, Debug)]
pub enum BlueNRGEvent {
    /// The firmware started, for the given reason.
    HalInitialized(ResetReason),
    /// The host did not read events fast enough, and the controller dropped events of these kinds.
    EventsLost(EventFlags),
    /// After a HalInitialized event for a crash: the fault data.
    CrashReport(FaultData),
    /// Limited discoverable mode ended on its timeout.
    GapLimitedDiscoverable,
    /// A pairing procedure completed, timed out or failed.
    GapPairingComplete(GapPairingComplete),
    /// Pairing needs a pass key.
    GapPassKeyRequest(ConnectionHandle),
    /// Reading or writing an attribute needs the application's authorization.
    GapAuthorizationRequest(ConnectionHandle),
    /// The slave security request was sent to the master.
    GapSlaveSecurityInitiated,
    /// The peer has lost the bond.
    GapBondLost,
    /// A device was found while scanning.
    GapDeviceFound(GapDeviceFound),
    /// A GAP procedure ended.
    GapProcedureComplete(GapProcedureComplete),
    /// A privacy-enabled peripheral could not resolve the peer's address (Extended firmware).
    GapAddressNotResolved(ConnectionHandle),
    /// A reconnection address was generated (Standard firmware).
    GapReconnectionAddress(BdAddrBuffer),
    /// The master answered an L2CAP connection update request.
    L2CapConnectionUpdateResponse(L2CapConnectionUpdateResponse),
    /// The master did not answer a connection update request within 30 seconds.
    L2CapProcedureTimeout(ConnectionHandle),
    /// The slave asked for a connection update.
    L2CapConnectionUpdateRequest(L2CapConnectionUpdateRequest),
    /// A client modified an attribute of this server.
    GattAttributeModified(GattAttributeModified),
    /// An ATT client procedure timed out.
    GattProcedureTimeout(ConnectionHandle),
    /// The answer to an Exchange MTU request.
    AttExchangeMtuResponse(AttExchangeMtuResponse),
    /// The answer to a Find Information request.
    AttFindInformationResponse(AttFindInformationResponse),
    /// The answer to a Find By Type Value request.
    AttFindByTypeValueResponse(AttFindByTypeValueResponse),
    /// The answer to a Read By Type request.
    AttReadByTypeResponse(AttReadByTypeResponse),
    /// The answer to a Read request.
    AttReadResponse(AttReadResponse),
    /// The answer to a Read Blob request: the value from the requested offset on.
    AttReadBlobResponse(AttReadResponse),
    /// The answer to a Read Multiple request: the requested values.
    AttReadMultipleResponse(AttReadResponse),
    /// The answer to a Read By Group Type request.
    AttReadByGroupTypeResponse(AttReadByGroupTypeResponse),
    /// The answer to a Prepare Write request.
    AttPrepareWriteResponse(AttPrepareWriteResponse),
    /// The answer to an Execute Write request.
    AttExecuteWriteResponse(ConnectionHandle),
    /// An indication from the server.
    GattIndication(AttributeValue),
    /// A notification from the server.
    GattNotification(AttributeValue),
    /// A GATT client procedure ended.
    GattProcedureComplete(GattProcedureComplete),
    /// The server answered a request with an error.
    AttErrorResponse(AttErrorResponse),
    /// A value found by a "discover characteristics by UUID" or "read using characteristic UUID"
    /// procedure.
    GattDiscoverOrReadCharacteristicByUuidResponse(AttributeValue),
    /// A client asks to write an attribute, which the application must permit.
    AttWritePermitRequest(AttributeValue),
    /// An event with this opcode, whose data is not kept. Decoding never produces it: an
    /// unknown opcode is an error.
    UnknownEvent(u16),
}

/// The opcode of an event buffer: its first two bytes, little-endian.
pub open spec fn opcode(b: Seq<u8>) -> int {
    le16(b, 0)
}

/// The error for an opcode that names no event of the firmware.
pub open spec fn unknown_event(op: int) -> Option<EventError> {
    Some(EventError::Vendor(Error::UnknownEvent(op as u16)))
}

/// Why a buffer does not decode for the given firmware, or `None` if it decodes.
pub open spec fn event_error(b: Seq<u8>, v: BuildVariant) -> Option<EventError> {
    let op = opcode(b);
    let extended = v == BuildVariant::Extended;
    if b.len() < 2 {
        Some(EventError::BadLength(b.len() as usize, 2))
    } else if op == 0x0001 {
        hal_initialized_error(b)
    } else if op == 0x0002 {
        if extended {
            lost_event_error(b)
        } else {
            unknown_event(op)
        }
    } else if op == 0x0003 {
        if extended {
            crash_report_error(b)
        } else {
            unknown_event(op)
        }
    } else if op == 0x0400 || op == 0x0404 || op == 0x0405 {
        None
    } else if op == 0x0401 {
        pairing_complete_error(b)
    } else if op == 0x0402 || op == 0x0403 || op == 0x0C02 || op == 0x0C0D {
        conn_handle_error(b)
    } else if op == 0x0406 {
        device_found_error(b)
    } else if op == 0x0407 {
        procedure_complete_error(b)
    } else if op == 0x0408 {
        if extended {
            conn_handle_error(b)
        } else {
            reconnection_address_error(b)
        }
    } else if op == 0x0800 {
        connection_update_response_error(b)
    } else if op == 0x0801 {
        procedure_timeout_error(b)
    } else if op == 0x0802 {
        connection_update_request_error(b)
    } else if op == 0x0C01 {
        attribute_modified_error(b, extended)
    } else if op == 0x0C03 {
        exchange_mtu_error(b)
    } else if op == 0x0C04 {
        find_information_error(b)
    } else if op == 0x0C05 {
        find_by_type_value_error(b)
    } else if op == 0x0C06 {
        read_by_type_error(b)
    } else if op == 0x0C07 || op == 0x0C08 || op == 0x0C09 {
        read_response_error(b)
    } else if op == 0x0C0A {
        read_by_group_type_error(b)
    } else if op == 0x0C0C {
        prepare_write_error(b)
    } else if op == 0x0C0E || op == 0x0C0F || op == 0x0C12 {
        attribute_value_error(b)
    } else if op == 0x0C10 {
        gatt_procedure_complete_error(b)
    } else if op == 0x0C11 {
        att_error_response_error(b)
    } else if op == 0x0C13 {
        write_permit_error(b)
    } else {
        unknown_event(op)
    }
}

/// The event is the one that its opcode selects, with the fields of the buffer.
pub open spec fn event_fields(b: Seq<u8>, v: BuildVariant, ev: BlueNRGEvent) -> bool {
    let op = opcode(b);
    let extended = v == BuildVariant::Extended;
    match ev {
        BlueNRGEvent::HalInitialized(x) => op == 0x0001 && hal_initialized_fields(b, x),
        BlueNRGEvent::EventsLost(x) => op == 0x0002 && extended && lost_event_fields(b, x),
        BlueNRGEvent::CrashReport(x) => op == 0x0003 && extended && crash_report_fields(b, x),
        BlueNRGEvent::GapLimitedDiscoverable => op == 0x0400,
        BlueNRGEvent::GapPairingComplete(x) => op == 0x0401 && pairing_complete_fields(b, x),
        BlueNRGEvent::GapPassKeyRequest(h) => op == 0x0402 && conn_handle_fields(b, h),
        BlueNRGEvent::GapAuthorizationRequest(h) => op == 0x0403 && conn_handle_fields(b, h),
        BlueNRGEvent::GapSlaveSecurityInitiated => op == 0x0404,
        BlueNRGEvent::GapBondLost => op == 0x0405,
        BlueNRGEvent::GapDeviceFound(x) => op == 0x0406 && device_found_fields(b, x),
        BlueNRGEvent::GapProcedureComplete(x) => op == 0x0407 && procedure_complete_fields(b, x),
        BlueNRGEvent::GapAddressNotResolved(h) => op == 0x0408 && extended && conn_handle_fields(
            b,
            h,
        ),
        BlueNRGEvent::GapReconnectionAddress(a) => op == 0x0408 && !extended && addr_at(b, 2, a),
        BlueNRGEvent::L2CapConnectionUpdateResponse(x) => op == 0x0800
            && connection_update_response_fields(b, x),
        BlueNRGEvent::L2CapProcedureTimeout(h) => op == 0x0801 && procedure_timeout_fields(b, h),
        BlueNRGEvent::L2CapConnectionUpdateRequest(x) => op == 0x0802
            && connection_update_request_fields(b, x),
        BlueNRGEvent::GattAttributeModified(x) => op == 0x0C01 && attribute_modified_fields(
            b,
            extended,
            x,
        ),
        BlueNRGEvent::GattProcedureTimeout(h) => op == 0x0C02 && conn_handle_fields(b, h),
        BlueNRGEvent::AttExchangeMtuResponse(x) => op == 0x0C03 && exchange_mtu_fields(b, x),
        BlueNRGEvent::AttFindInformationResponse(x) => op == 0x0C04 && find_information_fields(
            b,
            x,
        ),
        BlueNRGEvent::AttFindByTypeValueResponse(x) => op == 0x0C05 && find_by_type_value_fields(
            b,
            x,
        ),
        BlueNRGEvent::AttReadByTypeResponse(x) => op == 0x0C06 && read_by_type_fields(b, x),
        BlueNRGEvent::AttReadResponse(x) => op == 0x0C07 && read_response_fields(b, x),
        BlueNRGEvent::AttReadBlobResponse(x) => op == 0x0C08 && read_response_fields(b, x),
        BlueNRGEvent::AttReadMultipleResponse(x) => op == 0x0C09 && read_response_fields(b, x),
        BlueNRGEvent::AttReadByGroupTypeResponse(x) => op == 0x0C0A && read_by_group_type_fields(
            b,
            x,
        ),
        BlueNRGEvent::AttPrepareWriteResponse(x) => op == 0x0C0C && prepare_write_fields(b, x),
        BlueNRGEvent::AttExecuteWriteResponse(h) => op == 0x0C0D && conn_handle_fields(b, h),
        BlueNRGEvent::GattIndication(x) => op == 0x0C0E && attribute_value_fields(b, x),
        BlueNRGEvent::GattNotification(x) => op == 0x0C0F && attribute_value_fields(b, x),
        BlueNRGEvent::GattProcedureComplete(x) => op == 0x0C10 && gatt_procedure_complete_fields(
            b,
            x,
        ),
        BlueNRGEvent::AttErrorResponse(x) => op == 0x0C11 && att_error_response_fields(b, x),
        BlueNRGEvent::GattDiscoverOrReadCharacteristicByUuidResponse(x) => op == 0x0C12
            && attribute_value_fields(b, x),
        BlueNRGEvent::AttWritePermitRequest(x) => op == 0x0C13 && write_permit_fields(b, x),
        BlueNRGEvent::UnknownEvent(_) => false,
    }
}

/// The outcome of decoding `b` for firmware `v`: the event with the buffer's fields, or the
/// error that `event_error` names.
pub open spec fn decodes_to(
    b: Seq<u8>,
    v: BuildVariant,
    r: Result<BlueNRGEvent, EventError>,
) -> bool {
    match r {
        Ok(ev) => event_error(b, v) is None && event_fields(b, v, ev),
        Err(e) => event_error(b, v) == Some(e),
    }
}

impl BlueNRGEvent {
    /// Decodes one vendor event buffer, at most 255 bytes long, for the firmware build
    /// `BUILD_VARIANT`.
    pub fn new(buffer: &[u8]) -> (r: Result<BlueNRGEvent, EventError>)
        requires
            buffer@.len() <= 255,
        ensures
            decodes_to(buffer@, BUILD_VARIANT, r),
    {
        BlueNRGEvent::decode(buffer, BUILD_VARIANT)
    }

    /// Decodes one vendor event buffer, at most 255 bytes long, for the given firmware build.
    #[verifier::rlimit(50)]
    pub fn decode(buffer: &[u8], variant: BuildVariant) -> (r: Result<BlueNRGEvent, EventError>)
        requires
            buffer@.len() <= 255,
        ensures
            decodes_to(buffer@, variant, r),
    {
        if buffer.len() < 2 {
            return Err(EventError::BadLength(buffer.len(), 2));
        }
        let extended = match variant {
            BuildVariant::Standard => false,
            BuildVariant::Extended => true,
        };
        let event_code = read_u16(buffer, 0);
        match event_code {
            0x0001 => Ok(BlueNRGEvent::HalInitialized(to_hal_initialized(buffer)?)),
            0x0002 => {
                if extended {
                    Ok(BlueNRGEvent::EventsLost(to_lost_event(buffer)?))
                } else {
                    Err(EventError::Vendor(Error::UnknownEvent(event_code)))
                }
            },
            0x0003 => {
                if extended {
                    Ok(BlueNRGEvent::CrashReport(to_crash_report(buffer)?))
                } else {
                    Err(EventError::Vendor(Error::UnknownEvent(event_code)))
                }
            },
            0x0400 => Ok(BlueNRGEvent::GapLimitedDiscoverable),
            0x0401 => Ok(BlueNRGEvent::GapPairingComplete(to_gap_pairing_complete(buffer)?)),
            0x0402 => Ok(BlueNRGEvent::GapPassKeyRequest(to_conn_handle(buffer)?)),
            0x0403 => Ok(BlueNRGEvent::GapAuthorizationRequest(to_conn_handle(buffer)?)),
            0x0404 => Ok(BlueNRGEvent::GapSlaveSecurityInitiated),
            0x0405 => Ok(BlueNRGEvent::GapBondLost),
            0x0406 => Ok(BlueNRGEvent::GapDeviceFound(to_gap_device_found(buffer)?)),
            0x0407 => Ok(BlueNRGEvent::GapProcedureComplete(to_gap_procedure_complete(buffer)?)),
            0x0408 => {
                if extended {
                    Ok(BlueNRGEvent::GapAddressNotResolved(to_conn_handle(buffer)?))
                } else {
                    Ok(BlueNRGEvent::GapReconnectionAddress(to_gap_reconnection_address(buffer)?))
                }
            },
            0x0800 => Ok(
                BlueNRGEvent::L2CapConnectionUpdateResponse(
                    to_l2cap_connection_update_response(buffer)?,
                ),
            ),
            0x0801 => Ok(BlueNRGEvent::L2CapProcedureTimeout(to_l2cap_procedure_timeout(buffer)?)),
            0x0802 => Ok(
                BlueNRGEvent::L2CapConnectionUpdateRequest(
                    to_l2cap_connection_update_request(buffer)?,
                ),
            ),
            0x0C01 => Ok(
                BlueNRGEvent::GattAttributeModified(to_gatt_attribute_modified(buffer, extended)?),
            ),
            0x0C02 => Ok(BlueNRGEvent::GattProcedureTimeout(to_conn_handle(buffer)?)),
            0x0C03 => Ok(BlueNRGEvent::AttExchangeMtuResponse(to_att_exchange_mtu_resp(buffer)?)),
            0x0C04 => Ok(
                BlueNRGEvent::AttFindInformationResponse(to_att_find_information_response(buffer)?),
            ),
            0x0C05 => Ok(
                BlueNRGEvent::AttFindByTypeValueResponse(
                    to_att_find_by_value_type_response(buffer)?,
                ),
            ),
            0x0C06 => Ok(
                BlueNRGEvent::AttReadByTypeResponse(to_att_read_by_type_response(buffer)?),
            ),
            0x0C07 => Ok(BlueNRGEvent::AttReadResponse(to_att_read_response(buffer)?)),
            0x0C08 => Ok(BlueNRGEvent::AttReadBlobResponse(to_att_read_response(buffer)?)),
            0x0C09 => Ok(BlueNRGEvent::AttReadMultipleResponse(to_att_read_response(buffer)?)),
            0x0C0A => Ok(
                BlueNRGEvent::AttReadByGroupTypeResponse(
                    to_att_read_by_group_type_response(buffer)?,
                ),
            ),
            0x0C0C => Ok(
                BlueNRGEvent::AttPrepareWriteResponse(to_att_prepare_write_response(buffer)?),
            ),
            0x0C0D => Ok(BlueNRGEvent::AttExecuteWriteResponse(to_conn_handle(buffer)?)),
            0x0C0E => Ok(BlueNRGEvent::GattIndication(to_attribute_value(buffer)?)),
            0x0C0F => Ok(BlueNRGEvent::GattNotification(to_attribute_value(buffer)?)),
            0x0C10 => Ok(BlueNRGEvent::GattProcedureComplete(to_gatt_procedure_complete(buffer)?)),
            0x0C11 => Ok(BlueNRGEvent::AttErrorResponse(to_att_error_response(buffer)?)),
            0x0C12 => Ok(
                BlueNRGEvent::GattDiscoverOrReadCharacteristicByUuidResponse(
                    to_attribute_value(buffer)?,
                ),
            ),
            0x0C13 => Ok(BlueNRGEvent::AttWritePermitRequest(to_write_permit_request(buffer)?)),
            _ => Err(EventError::Vendor(Error::UnknownEvent(event_code))),
        }
    }
}

/// The least length that the event of an opcode requires, or `None` for an opcode that names no
/// event of the firmware.
pub open spec fn required_len(op: int, v: BuildVariant) -> Option<nat> {
    let extended = v == BuildVariant::Extended;
    if op == 0x0001 {
        Some(3)
    } else if op == 0x0002 {
        if extended {
            Some(10)
        } else {
            None
        }
    } else if op == 0x0003 {
        if extended {
            Some(40)
        } else {
            None
        }
    } else if op == 0x0400 || op == 0x0404 || op == 0x0405 {
        Some(2)
    } else if op == 0x0401 || op == 0x0801 || op == 0x0C05 || op == 0x0C07 || op == 0x0C08
        || op == 0x0C09 {
        Some(5)
    } else if op == 0x0402 || op == 0x0403 || op == 0x0407 || op == 0x0C02 || op == 0x0C0D {
        Some(4)
    } else if op == 0x0406 {
        Some(12)
    } else if op == 0x0408 {
        if extended {
            Some(4)
        } else {
            Some(8)
        }
    } else if op == 0x0800 {
        Some(11)
    } else if op == 0x0802 {
        Some(16)
    } else if op == 0x0C01 {
        if extended {
            Some(9)
        } else {
            Some(7)
        }
    } else if op == 0x0C03 || op == 0x0C0E || op == 0x0C0F || op == 0x0C12 || op == 0x0C13 {
        Some(7)
    } else if op == 0x0C04 || op == 0x0C06 || op == 0x0C0A || op == 0x0C10 {
        Some(6)
    } else if op == 0x0C0C || op == 0x0C11 {
        Some(9)
    } else {
        None
    }
}

/// A buffer shorter than its event requires is rejected with the length error that carries its
/// length and the required length, never with another error. A buffer without a whole opcode
/// requires 2 bytes.
pub proof fn lemma_short_buffer_is_length_error(b: Seq<u8>, v: BuildVariant, n: nat)
    requires
        if b.len() < 2 {
            n == 2
        } else {
            required_len(opcode(b), v) == Some(n)
        },
        b.len() < n,
    ensures
        event_error(b, v) == Some(EventError::BadLength(b.len() as usize, n as usize)),
{
}

/// A buffer whose opcode names no event of the firmware is rejected with the unknown-event error
/// that carries the opcode.
pub proof fn lemma_unknown_opcode(b: Seq<u8>, v: BuildVariant)
    requires
        b.len() >= 2,
        required_len(opcode(b), v) is None,
    ensures
        event_error(b, v) == Some(EventError::Vendor(Error::UnknownEvent(opcode(b) as u16))),
{
}

} // verus!
