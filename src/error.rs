//! The closed set of reasons for which a vendor event buffer is rejected.

use vstd::prelude::*;

verus! {

/// Vendor-specific reasons for rejecting an event buffer. Each variant belongs to one validation
/// rule and carries the value that broke it.
#[derive(Clone, Copy, Debug, PartialEq, Eq, Structural)]
pub enum Error {
    /// The opcode names no event of this controller. Includes the opcode.
    UnknownEvent(u16),

    /// HalInitialized: the reset reason is not recognized. Includes the byte.
    UnknownResetReason(u8),

    /// EventsLost: a bit is set that names no event. Includes the whole bit field.
    BadEventFlags(u64),

    /// CrashReport: the crash reason is not recognized. Includes the byte.
    UnknownCrashReason(u8),

    /// GapPairingComplete: the status is not recognized. Includes the byte.
    BadGapPairingStatus(u8),

    /// GapDeviceFound: the event type is not recognized. Includes the byte.
    BadGapDeviceFoundEvent(u8),

    /// GapDeviceFound: the address type is not recognized. Includes the byte.
    BadGapBdAddrType(u8),

    /// GapProcedureComplete: the procedure code is not recognized. Includes the byte.
    BadGapProcedure(u8),

    /// GapProcedureComplete: the procedure status is not recognized. Includes the byte.
    BadGapProcedureStatus(u8),

    /// GapDeviceFound: the last byte says that the RSSI is unavailable.
    GapRssiUnavailable,

    /// L2CAP events: the event data length byte is wrong. Includes the byte found and the byte
    /// required, in that order.
    BadL2CapDataLength(u8, u8),

    /// L2CAP events: the L2CAP length field is wrong. Includes the value found and the value
    /// required, in that order.
    BadL2CapLength(u16, u16),

    /// L2CapConnectionUpdateResponse: the command was rejected for a reason that is not
    /// recognized. Includes the value.
    BadL2CapRejectionReason(u16),

    /// L2CapConnectionUpdateResponse: the code byte is neither "rejected" nor "updated".
    /// Includes the byte.
    BadL2CapConnectionResponseCode(u8),

    /// L2CapConnectionUpdateResponse: the command was accepted, but the result is neither
    /// "updated" nor "rejected". Includes the value.
    BadL2CapConnectionResponseResult(u16),

    /// L2CapConnectionUpdateRequest: an interval bound lies outside 6 to 3200, or the minimum
    /// exceeds the maximum. Includes the minimum and the maximum.
    BadL2CapConnectionUpdateRequestInterval(u16, u16),

    /// L2CapConnectionUpdateRequest: the slave latency reaches the limit derived from the
    /// timeout multiplier and the maximum interval. Includes the latency and the limit.
    BadL2CapConnectionUpdateRequestLatency(u16, u16),

    /// L2CapConnectionUpdateRequest: the timeout multiplier lies outside 10 to 3200. Includes the
    /// value.
    BadL2CapConnectionUpdateRequestTimeoutMult(u16),

    /// AttFindInformationResponse: the format code is neither 1 nor 2. Includes the byte.
    BadAttFindInformationResponseFormat(u8),

    /// AttFindInformationResponse: 16-bit UUID format, and the data ends with a partial pair.
    AttFindInformationResponsePartialPair16,

    /// AttFindInformationResponse: 128-bit UUID format, and the data ends with a partial pair.
    AttFindInformationResponsePartialPair128,

    /// AttFindByTypeValueResponse: the data ends with a partial handle pair.
    AttFindByTypeValuePartial,

    /// AttReadByTypeResponse: the data ends with a partial handle-value pair.
    AttReadByTypeResponsePartial,

    /// AttReadByGroupTypeResponse: the data ends with a partial attribute data group.
    AttReadByGroupTypeResponsePartial,

    /// GattProcedureComplete: the status is not recognized. Includes the byte.
    BadGattProcedureStatus(u8),

    /// AttErrorResponse: the request opcode is not recognized. Includes the byte.
    BadAttRequestOpcode(u8),
}

/// The outcome of a rejected buffer: either its length is wrong for the event that its opcode
/// names, or a vendor-specific rule is broken.
#[derive(Clone, Copy, Debug, PartialEq, Eq, Structural)]
pub enum EventError {
    /// The buffer's length is wrong. Includes the actual length and the required length.
    BadLength(usize, usize),

    /// A vendor-specific rule is broken.
    Vendor(Error),
}

/// The vendor error of a field mapping, as an event error.
pub open spec fn vendor_error<T>(r: Result<T, Error>) -> Option<EventError> {
    match r {
        Ok(_) => None,
        Err(e) => Some(EventError::Vendor(e)),
    }
}

} // verus!
