//! L2CAP events: connection parameter update requests, their responses, and timeouts.

use vstd::prelude::*;
use crate::error::{vendor_error, Error, EventError};
use crate::types::ConnectionHandle;
use crate::wire::{exact_len_error, first_error, le16, read_u16, require_len};

verus! {

/// The error for an event data length byte `found` where `required` is expected.
pub open spec fn data_len_error(found: u8, required: u8) -> Option<EventError> {
    if found != required {
        Some(EventError::Vendor(Error::BadL2CapDataLength(found, required)))
    } else {
        None
    }
}

/// The error for an L2CAP length field `found` where `required` is expected.
pub open spec fn l2cap_len_error(found: int, required: u16) -> Option<EventError> {
    if found != required {
        Some(EventError::Vendor(Error::BadL2CapLength(found as u16, required)))
    } else {
        None
    }
}

fn check_data_len(buffer: &[u8], required: u8) -> (r: Result<(), EventError>)
    requires
        buffer@.len() > 4,
    ensures
        r is Ok <==> data_len_error(buffer@[4], required) is None,
        r matches Err(e) ==> data_len_error(buffer@[4], required) == Some(e),
{
    let found = buffer[4];
    if found != required {
        Err(EventError::Vendor(Error::BadL2CapDataLength(found, required)))
    } else {
        Ok(())
    }
}

fn check_l2cap_len(found: u16, required: u16) -> (r: Result<(), EventError>)
    ensures
        r is Ok <==> l2cap_len_error(found as int, required) is None,
        r matches Err(e) ==> l2cap_len_error(found as int, required) == Some(e),
{
    if found != required {
        Err(EventError::Vendor(Error::BadL2CapLength(found, required)))
    } else {
        Ok(())
    }
}

/// The answer to an L2CAP connection update request.
#[derive(Clone, Copy, Debug)]
pub struct L2CapConnectionUpdateResponse {
    /// The connection handle related to the event.
    pub conn_handle: ConnectionHandle,
    /// The result of the update request.
    pub result: L2CapConnectionUpdateResult,
}

/// Why an L2CAP command was rejected.
#[derive(Clone, Copy, Debug, PartialEq, Eq, Structural)]
pub enum L2CapRejectionReason {
    /// The command was not understood.
    CommandNotUnderstood,
    /// The packet exceeded the signaling MTU of the receiver.
    SignalingMtuExceeded,
    /// The request named an invalid channel.
    InvalidCid,
}

/// The rejection reason that a result field names, or the error that carries it.
pub open spec fn rejection_reason_of(value: u16) -> Result<L2CapRejectionReason, Error> {
    match value {
        0 => Ok(L2CapRejectionReason::CommandNotUnderstood),
        1 => Ok(L2CapRejectionReason::SignalingMtuExceeded),
        2 => Ok(L2CapRejectionReason::InvalidCid),
        _ => Err(Error::BadL2CapRejectionReason(value)),
    }
}

impl TryFrom<u16> for L2CapRejectionReason {
    type Error = Error;

    /// Maps the result field of a rejected command.
    fn try_from(value: u16) -> (r: Result<L2CapRejectionReason, Error>) {
        match value {
            0 => Ok(L2CapRejectionReason::CommandNotUnderstood),
            1 => Ok(L2CapRejectionReason::SignalingMtuExceeded),
            2 => Ok(L2CapRejectionReason::InvalidCid),
            _ => Err(Error::BadL2CapRejectionReason(value)),
        }
    }
}

impl vstd::std_specs::convert::TryFromSpecImpl<u16> for L2CapRejectionReason {
    open spec fn obeys_try_from_spec() -> bool {
        true
    }

    open spec fn try_from_spec(value: u16) -> Result<L2CapRejectionReason, Error> {
        rejection_reason_of(value)
    }
}

/// The outcome of an L2CAP connection update request.
#[derive(Clone, Copy, Debug, PartialEq, Eq, Structural)]
pub enum L2CapConnectionUpdateResult {
    /// The command was rejected, for the given reason.
    CommandRejected(L2CapRejectionReason),
    /// The command was accepted, and the parameters were rejected.
    ParametersRejected,
    /// The command was accepted, and the parameters were updated.
    ParametersUpdated,
}

/// The result of an accepted command that a result field names, or the error that carries it.
pub open spec fn accepted_result_of(value: u16) -> Result<L2CapConnectionUpdateResult, Error> {
    match value {
        0 => Ok(L2CapConnectionUpdateResult::ParametersUpdated),
        1 => Ok(L2CapConnectionUpdateResult::ParametersRejected),
        _ => Err(Error::BadL2CapConnectionResponseResult(value)),
    }
}

/// The result that a code byte and a result field give together: code 0x01 is a rejected
/// command with its reason, code 0x13 an accepted one with its outcome.
pub open spec fn update_result_of(code: u8, value: u16) -> Result<
    L2CapConnectionUpdateResult,
    Error,
> {
    if code == 0x01 {
        match rejection_reason_of(value) {
            Ok(reason) => Ok(L2CapConnectionUpdateResult::CommandRejected(reason)),
            Err(e) => Err(e),
        }
    } else if code == 0x13 {
        accepted_result_of(value)
    } else {
        Err(Error::BadL2CapConnectionResponseCode(code))
    }
}

fn to_l2cap_connection_update_accepted_result(value: u16) -> (r: Result<
    L2CapConnectionUpdateResult,
    Error,
>)
    ensures
        r == accepted_result_of(value),
{
    match value {
        0x0000 => Ok(L2CapConnectionUpdateResult::ParametersUpdated),
        0x0001 => Ok(L2CapConnectionUpdateResult::ParametersRejected),
        _ => Err(Error::BadL2CapConnectionResponseResult(value)),
    }
}

fn extract_l2cap_connection_update_response_result(buffer: &[u8]) -> (r: Result<
    L2CapConnectionUpdateResult,
    Error,
>)
    requires
        buffer@.len() == 11,
    ensures
        r == update_result_of(buffer@[5], le16(buffer@, 9) as u16),
{
    let value = read_u16(buffer, 9);
    match buffer[5] {
        0x01 => match L2CapRejectionReason::try_from(value) {
            Ok(reason) => Ok(L2CapConnectionUpdateResult::CommandRejected(reason)),
            Err(e) => Err(e),
        },
        0x13 => to_l2cap_connection_update_accepted_result(value),
        code => Err(Error::BadL2CapConnectionResponseCode(code)),
    }
}

/// The error of an L2CapConnectionUpdateResponse buffer, if any: 11 bytes, event data length 6
/// at byte 4, L2CAP length 2 at bytes 7 and 8, then the code at byte 5 and the result at bytes
/// 9 and 10.
pub open spec fn connection_update_response_error(b: Seq<u8>) -> Option<EventError> {
    first_error(
        exact_len_error(b, 11),
        first_error(
            data_len_error(b[4], 6),
            first_error(
                l2cap_len_error(le16(b, 7), 2),
                vendor_error(update_result_of(b[5], le16(b, 9) as u16)),
            ),
        ),
    )
}

/// The fields of a valid L2CapConnectionUpdateResponse buffer.
pub open spec fn connection_update_response_fields(
    b: Seq<u8>,
    x: L2CapConnectionUpdateResponse,
) -> bool {
    &&& x.conn_handle.0 as int == le16(b, 2)
    &&& update_result_of(b[5], le16(b, 9) as u16) == Ok::<L2CapConnectionUpdateResult, Error>(
        x.result,
    )
}

/// Decodes the L2CapConnectionUpdateResponse event.
pub(crate) fn to_l2cap_connection_update_response(buffer: &[u8]) -> (r: Result<
    L2CapConnectionUpdateResponse,
    EventError,
>)
    ensures
        match r {
            Ok(x) => connection_update_response_error(buffer@) is None
                && connection_update_response_fields(buffer@, x),
            Err(e) => connection_update_response_error(buffer@) == Some(e),
        },
{
    require_len(buffer, 11)?;
    check_data_len(buffer, 6)?;
    check_l2cap_len(read_u16(buffer, 7), 2)?;
    let conn_handle = ConnectionHandle(read_u16(buffer, 2));
    match extract_l2cap_connection_update_response_result(buffer) {
        Ok(result) => Ok(L2CapConnectionUpdateResponse { conn_handle, result }),
        Err(e) => Err(EventError::Vendor(e)),
    }
}

/// The master did not answer a connection update request within 30 seconds.
#[derive(Clone, Copy, Debug)]
pub struct L2CapProcedureTimeout {
    /// The connection handle related to the event.
    pub conn_handle: ConnectionHandle,
}

/// The error of an L2CapProcedureTimeout buffer, if any: 5 bytes, event data length 0 at byte 4.
pub open spec fn procedure_timeout_error(b: Seq<u8>) -> Option<EventError> {
    first_error(exact_len_error(b, 5), data_len_error(b[4], 0))
}

/// The connection handle of a valid L2CapProcedureTimeout buffer.
pub open spec fn procedure_timeout_fields(b: Seq<u8>, h: ConnectionHandle) -> bool {
    h.0 as int == le16(b, 2)
}

/// Decodes the L2CapProcedureTimeout event.
pub(crate) fn to_l2cap_procedure_timeout(buffer: &[u8]) -> (r: Result<ConnectionHandle, EventError>)
    ensures
        match r {
            Ok(x) => procedure_timeout_error(buffer@) is None && procedure_timeout_fields(
                buffer@,
                x,
            ),
            Err(e) => procedure_timeout_error(buffer@) == Some(e),
        },
{
    require_len(buffer, 5)?;
    check_data_len(buffer, 0)?;
    Ok(ConnectionHandle(read_u16(buffer, 2)))
}

/// A connection parameter update request received from the slave.
#[derive(Clone, Copy, Debug)]
pub struct L2CapConnectionUpdateRequest {
    /// Handle of the connection; the response carries it back.
    pub conn_handle: ConnectionHandle,
    /// Associates the request with its response.
    pub identifier: u8,
    /// Minimum connection interval, in units of 1.25 ms: 6 to 3200, at most `interval_max`.
    pub interval_min: u16,
    /// Maximum connection interval, in units of 1.25 ms: 6 to 3200.
    pub interval_max: u16,
    /// Slave latency, in connection events: below the limit given by `latency_limit`.
    pub slave_latency: u16,
    /// Supervision timeout, in units of 10 ms: 10 to 3200.
    pub timeout_mult: u16,
}

/// An interval bound outside the range 6 to 3200.
pub open spec fn spec_outside_interval_range(value: int) -> bool {
    value < 6 || value > 3200
}

/// The exclusive upper bound of the slave latency: the supervision timeout over twice the
/// maximum interval, less one, and at most 500. With both in their units this is
/// `4 * timeout_mult / interval_max - 1`; where that is negative no latency is allowed, and the
/// bound is reported as 0.
pub open spec fn latency_limit(timeout_mult: int, interval_max: int) -> int {
    let q = 4 * timeout_mult / interval_max;
    if q == 0 {
        0
    } else if q - 1 < 500 {
        q - 1
    } else {
        500
    }
}

/// The error of the four parameters of a connection update request, if any, in the order of the
/// checks: the interval bounds, the timeout multiplier, then the slave latency.
pub open spec fn update_parameters_error(
    interval_min: int,
    interval_max: int,
    slave_latency: int,
    timeout_mult: int,
) -> Option<EventError> {
    if spec_outside_interval_range(interval_min) || spec_outside_interval_range(interval_max)
        || interval_min > interval_max {
        Some(
            EventError::Vendor(
                Error::BadL2CapConnectionUpdateRequestInterval(
                    interval_min as u16,
                    interval_max as u16,
                ),
            ),
        )
    } else if timeout_mult < 10 || timeout_mult > 3200 {
        Some(
            EventError::Vendor(
                Error::BadL2CapConnectionUpdateRequestTimeoutMult(timeout_mult as u16),
            ),
        )
    } else if slave_latency >= latency_limit(timeout_mult, interval_max) {
        Some(
            EventError::Vendor(
                Error::BadL2CapConnectionUpdateRequestLatency(
                    slave_latency as u16,
                    latency_limit(timeout_mult, interval_max) as u16,
                ),
            ),
        )
    } else {
        None
    }
}

/// The error of an L2CapConnectionUpdateRequest buffer, if any: 16 bytes, event data length 11
/// at byte 4, L2CAP length 8 at bytes 6 and 7, then the parameters at bytes 8 to 15.
pub open spec fn connection_update_request_error(b: Seq<u8>) -> Option<EventError> {
    first_error(
        exact_len_error(b, 16),
        first_error(
            data_len_error(b[4], 11),
            first_error(
                l2cap_len_error(le16(b, 6), 8),
                update_parameters_error(le16(b, 8), le16(b, 10), le16(b, 12), le16(b, 14)),
            ),
        ),
    )
}

/// The fields of a valid L2CapConnectionUpdateRequest buffer.
pub open spec fn connection_update_request_fields(
    b: Seq<u8>,
    x: L2CapConnectionUpdateRequest,
) -> bool {
    &&& x.conn_handle.0 as int == le16(b, 2)
    &&& x.identifier == b[5]
    &&& x.interval_min as int == le16(b, 8)
    &&& x.interval_max as int == le16(b, 10)
    &&& x.slave_latency as int == le16(b, 12)
    &&& x.timeout_mult as int == le16(b, 14)
}

fn outside_interval_range(value: u16) -> (r: bool)
    ensures
        r == spec_outside_interval_range(value as int),
{
    value < 6 || value > 3200
}

/// Decodes the L2CapConnectionUpdateRequest event, with its parameters validated.
pub(crate) fn to_l2cap_connection_update_request(buffer: &[u8]) -> (r: Result<
    L2CapConnectionUpdateRequest,
    EventError,
>)
    ensures
        match r {
            Ok(x) => connection_update_request_error(buffer@) is None
                && connection_update_request_fields(buffer@, x),
            Err(e) => connection_update_request_error(buffer@) == Some(e),
        },
{
    require_len(buffer, 16)?;
    check_data_len(buffer, 11)?;
    check_l2cap_len(read_u16(buffer, 6), 8)?;

    let interval_min = read_u16(buffer, 8);
    let interval_max = read_u16(buffer, 10);
    if outside_interval_range(interval_min) || outside_interval_range(interval_max)
        || interval_min > interval_max {
        return Err(
            EventError::Vendor(
                Error::BadL2CapConnectionUpdateRequestInterval(interval_min, interval_max),
            ),
        );
    }

    let timeout_mult = read_u16(buffer, 14);
    if timeout_mult < 10 || timeout_mult > 3200 {
        return Err(
            EventError::Vendor(Error::BadL2CapConnectionUpdateRequestTimeoutMult(timeout_mult)),
        );
    }

    let slave_latency = read_u16(buffer, 12);

    // The supervision timeout is 10 ms per unit of `timeout_mult` and the interval 1.25 ms per
    // unit of `interval_max`, so timeout / (2 * interval) is 4 * timeout_mult / interval_max.
    let quotient: u16 = (4 * timeout_mult) / interval_max;
    let slave_latency_limit: u16 = if quotient == 0 {
        0
    } else if quotient - 1 < 500 {
        quotient - 1
    } else {
        500
    };
    if slave_latency >= slave_latency_limit {
        return Err(
            EventError::Vendor(
                Error::BadL2CapConnectionUpdateRequestLatency(slave_latency, slave_latency_limit),
            ),
        );
    }

    Ok(L2CapConnectionUpdateRequest {
        conn_handle: ConnectionHandle(read_u16(buffer, 2)),
        identifier: buffer[5],
        interval_min,
        interval_max,
        slave_latency,
        timeout_mult,
    })
}

} // verus!
