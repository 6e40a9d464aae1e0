//! Events of the hardware abstraction layer: start-up, lost events and crash reports.

use vstd::prelude::*;
use crate::error::{vendor_error, Error, EventError};
use crate::wire::{
    copy_padded, exact_len_error, first_error, le32, le64, min_len_error, read_u32, read_u64,
    require_len, require_len_at_least, zero_padded,
};

verus! {

/// Why the controller sent the HalInitialized event.
#[derive(Clone, Copy, Debug, PartialEq, Eq, Structural)]
pub enum ResetReason {
    /// Firmware started properly.
    Normal,
    /// Updater mode entered because of an updater start command.
    UpdaterAci,
    /// Updater mode entered because of a bad BLUE flag.
    UpdaterBadFlag,
    /// Updater mode entered with the IRQ pin.
    UpdaterPin,
    /// Reset caused by the watchdog.
    Watchdog,
    /// Reset due to lockup.
    Lockup,
    /// Brownout reset.
    Brownout,
    /// Reset caused by a crash (NMI or hard fault).
    Crash,
    /// Reset caused by an ECC error.
    EccError,
}

/// The reset reason that a byte names, or the error that carries it.
pub open spec fn reset_reason_of(value: u8) -> Result<ResetReason, Error> {
    match value {
        1 => Ok(ResetReason::Normal),
        2 => Ok(ResetReason::UpdaterAci),
        3 => Ok(ResetReason::UpdaterBadFlag),
        4 => Ok(ResetReason::UpdaterPin),
        5 => Ok(ResetReason::Watchdog),
        6 => Ok(ResetReason::Lockup),
        7 => Ok(ResetReason::Brownout),
        8 => Ok(ResetReason::Crash),
        9 => Ok(ResetReason::EccError),
        _ => Err(Error::UnknownResetReason(value)),
    }
}

impl TryFrom<u8> for ResetReason {
    type Error = Error;

    /// Maps the reset reason byte of the HalInitialized event.
    fn try_from(value: u8) -> (r: Result<ResetReason, Error>) {
        match value {
            1 => Ok(ResetReason::Normal),
            2 => Ok(ResetReason::UpdaterAci),
            3 => Ok(ResetReason::UpdaterBadFlag),
            4 => Ok(ResetReason::UpdaterPin),
            5 => Ok(ResetReason::Watchdog),
            6 => Ok(ResetReason::Lockup),
            7 => Ok(ResetReason::Brownout),
            8 => Ok(ResetReason::Crash),
            9 => Ok(ResetReason::EccError),
            _ => Err(Error::UnknownResetReason(value)),
        }
    }
}

impl vstd::std_specs::convert::TryFromSpecImpl<u8> for ResetReason {
    open spec fn obeys_try_from_spec() -> bool {
        true
    }

    open spec fn try_from_spec(value: u8) -> Result<ResetReason, Error> {
        reset_reason_of(value)
    }
}

/// The error of a HalInitialized buffer, if any: it is 3 bytes long, and byte 2 is the reset
/// reason.
pub open spec fn hal_initialized_error(b: Seq<u8>) -> Option<EventError> {
    first_error(exact_len_error(b, 3), vendor_error(reset_reason_of(b[2])))
}

/// The reset reason that a valid HalInitialized buffer carries.
pub open spec fn hal_initialized_fields(b: Seq<u8>, r: ResetReason) -> bool {
    reset_reason_of(b[2]) == Ok::<ResetReason, Error>(r)
}

/// Decodes the HalInitialized event.
pub(crate) fn to_hal_initialized(buffer: &[u8]) -> (r: Result<ResetReason, EventError>)
    ensures
        match r {
            Ok(x) => hal_initialized_error(buffer@) is None && hal_initialized_fields(buffer@, x),
            Err(e) => hal_initialized_error(buffer@) == Some(e),
        },
{
    require_len(buffer, 3)?;
    match ResetReason::try_from(buffer[2]) {
        Ok(reason) => Ok(reason),
        Err(e) => Err(EventError::Vendor(e)),
    }
}

/// The bits that name an event kind: bits 0 to 48.
pub const ALL_EVENT_FLAGS: u64 = 0x1FFFFFFFFFFFF;

/// The set of event kinds that the controller dropped, reported by the EventsLost event. Only
/// the bits of `ALL_EVENT_FLAGS` can be set.
#[derive(Clone, Copy, Debug, PartialEq, Eq, Structural)]
pub struct EventFlags {
    bits: u64,
}

impl EventFlags {
    /// Lost HCI event: disconnection complete.
    pub const DISCONNECTION_COMPLETE: u64 = 0x1;

    /// Lost HCI event: encryption change.
    pub const ENCRYPTION_CHANGE: u64 = 0x2;

    /// Lost HCI event: read remote version complete.
    pub const READ_REMOTE_VERSION_COMPLETE: u64 = 0x4;

    /// Lost HCI event: command complete.
    pub const COMMAND_COMPLETE: u64 = 0x8;

    /// Lost HCI event: command status.
    pub const COMMAND_STATUS: u64 = 0x10;

    /// Lost HCI event: hardware error.
    pub const HARDWARE_ERROR: u64 = 0x20;

    /// Lost HCI event: number of completed packets.
    pub const NUMBER_OF_COMPLETED_PACKETS: u64 = 0x40;

    /// Lost HCI event: encryption key refresh complete.
    pub const ENCRYPTION_KEY_REFRESH: u64 = 0x80;

    /// Lost vendor event: HAL initialized.
    pub const HAL_INITIALIZED: u64 = 0x100;

    /// Lost vendor event: GAP limited discoverable mode ended.
    pub const GAP_SET_LIMITED_DISCOVERABLE: u64 = 0x200;

    /// Lost vendor event: GAP pairing complete.
    pub const GAP_PAIRING_COMPLETE: u64 = 0x400;

    /// Lost vendor event: GAP pass key request.
    pub const GAP_PASS_KEY_REQUEST: u64 = 0x800;

    /// Lost vendor event: GAP authorization request.
    pub const GAP_AUTHORIZATION_REQUEST: u64 = 0x1000;

    /// Lost vendor event: GAP slave security initiated.
    pub const GAP_SLAVE_SECURITY_INITIATED: u64 = 0x2000;

    /// Lost vendor event: GAP bond lost.
    pub const GAP_BOND_LOST: u64 = 0x4000;

    /// Lost vendor event: GAP procedure complete.
    pub const GAP_PROCEDURE_COMPLETE: u64 = 0x8000;

    /// Lost vendor event: GAP address not resolved.
    pub const GAP_ADDRESS_NOT_RESOLVED: u64 = 0x10000;

    /// Lost vendor event: L2CAP connection update response.
    pub const L2CAP_CONNECTION_UPDATE_RESPONSE: u64 = 0x20000;

    /// Lost vendor event: L2CAP procedure timeout.
    pub const L2CAP_PROCEDURE_TIMEOUT: u64 = 0x40000;

    /// Lost vendor event: L2CAP connection update request.
    pub const L2CAP_CONNECTION_UPDATE_REQUEST: u64 = 0x80000;

    /// Lost vendor event: GATT attribute modified.
    pub const GATT_ATTRIBUTE_MODIFIED: u64 = 0x100000;

    /// Lost vendor event: GATT procedure timeout.
    pub const GATT_PROCEDURE_TIMEOUT: u64 = 0x200000;

    /// Lost vendor event: ATT exchange MTU response.
    pub const ATT_EXCHANGE_MTU_RESPONSE: u64 = 0x400000;

    /// Lost vendor event: ATT find information response.
    pub const ATT_FIND_INFORMATION_RESPONSE: u64 = 0x800000;

    /// Lost vendor event: ATT find by type value response.
    pub const ATT_FIND_BY_TYPE_VALUE_RESPONSE: u64 = 0x1000000;

    /// Lost vendor event: ATT read by type response.
    pub const ATT_READ_BY_TYPE_RESPONSE: u64 = 0x2000000;

    /// Lost vendor event: ATT read response.
    pub const ATT_READ_RESPONSE: u64 = 0x4000000;

    /// Lost vendor event: ATT read blob response.
    pub const ATT_READ_BLOB_RESPONSE: u64 = 0x8000000;

    /// Lost vendor event: ATT read multiple response.
    pub const ATT_READ_MULTIPLE_RESPONSE: u64 = 0x10000000;

    /// Lost vendor event: ATT read by group type response.
    pub const ATT_READ_BY_GROUP_TYPE_RESPONSE: u64 = 0x20000000;

    /// Lost vendor event: ATT write response.
    pub const ATT_WRITE_RESPONSE: u64 = 0x40000000;

    /// Lost vendor event: ATT prepare write response.
    pub const ATT_PREPARE_WRITE_RESPONSE: u64 = 0x80000000;

    /// Lost vendor event: ATT execute write response.
    pub const ATT_EXECUTE_WRITE_RESPONSE: u64 = 0x100000000;

    /// Lost vendor event: GATT indication received from the server.
    pub const GATT_INDICATION: u64 = 0x200000000;

    /// Lost vendor event: GATT notification received from the server.
    pub const GATT_NOTIFICATION: u64 = 0x400000000;

    /// Lost vendor event: GATT procedure complete.
    pub const GATT_PROCEDURE_COMPLETE: u64 = 0x800000000;

    /// Lost vendor event: GATT error response received from the server.
    pub const GATT_ERROR_RESPONSE: u64 = 0x1000000000;

    /// Lost vendor event: GATT discover or read characteristic by UUID response.
    pub const GATT_DISCOVER_OR_READ_CHARACTERISTIC_BY_UUID_RESPONSE: u64 = 0x2000000000;

    /// Lost vendor event: GATT write request received by the server.
    pub const GATT_WRITE_PERMIT_REQUEST: u64 = 0x4000000000;

    /// Lost vendor event: GATT read request received by the server.
    pub const GATT_READ_PERMIT_REQUEST: u64 = 0x8000000000;

    /// Lost vendor event: GATT read multiple request received by the server.
    pub const GATT_READ_MULTIPLE_PERMIT_REQUEST: u64 = 0x10000000000;

    /// Lost vendor event: GATT transmit pool available event missed.
    pub const GATT_TX_POOL_AVAILABLE: u64 = 0x20000000000;

    /// Lost vendor event: GATT server confirmation.
    pub const GATT_SERVER_RX_CONFIRMATION: u64 = 0x40000000000;

    /// Lost vendor event: GATT prepare write permit request.
    pub const GATT_PREPARE_WRITE_PERMIT_REQUEST: u64 = 0x80000000000;

    /// Lost vendor event: link layer connection complete.
    pub const LINK_LAYER_CONNECTION_COMPLETE: u64 = 0x100000000000;

    /// Lost vendor event: link layer advertising report.
    pub const LINK_LAYER_ADVERTISING_REPORT: u64 = 0x200000000000;

    /// Lost vendor event: link layer connection update complete.
    pub const LINK_LAYER_CONNECTION_UPDATE_COMPLETE: u64 = 0x400000000000;

    /// Lost vendor event: link layer read remote used features.
    pub const LINK_LAYER_READ_REMOTE_USED_FEATURES: u64 = 0x800000000000;

    /// Lost vendor event: link layer long-term key request.
    pub const LINK_LAYER_LTK_REQUEST: u64 = 0x1000000000000;

    /// The bit set, as read from the event.
    pub closed spec fn spec_bits(&self) -> u64 {
        self.bits
    }

    /// Every set bit names an event kind.
    pub open spec fn wf(&self) -> bool {
        self.spec_bits() <= ALL_EVENT_FLAGS
    }

    /// The raw bit set.
    pub fn bits(&self) -> (r: u64)
        ensures
            r == self.spec_bits(),
    {
        self.bits
    }

    /// The flag set with these bits, or `None` if a bit beyond the highest defined one is set.
    pub fn from_bits(bits: u64) -> (r: Option<EventFlags>)
        ensures
            r is Some <==> bits <= ALL_EVENT_FLAGS,
            r matches Some(f) ==> f.spec_bits() == bits && f.wf(),
    {
        if bits <= ALL_EVENT_FLAGS {
            Some(EventFlags { bits })
        } else {
            None
        }
    }
}

/// The error of an EventsLost buffer, if any: it is 10 bytes long, and bytes 2 to 9 hold the
/// flags, of which no undefined bit may be set.
pub open spec fn lost_event_error(b: Seq<u8>) -> Option<EventError> {
    first_error(
        exact_len_error(b, 10),
        if le64(b, 2) <= ALL_EVENT_FLAGS {
            None
        } else {
            Some(EventError::Vendor(Error::BadEventFlags(le64(b, 2) as u64)))
        },
    )
}

/// The flags that a valid EventsLost buffer carries.
pub open spec fn lost_event_fields(b: Seq<u8>, f: EventFlags) -> bool {
    f.spec_bits() as int == le64(b, 2) && f.wf()
}

/// Decodes the EventsLost event.
pub(crate) fn to_lost_event(buffer: &[u8]) -> (r: Result<EventFlags, EventError>)
    ensures
        match r {
            Ok(x) => lost_event_error(buffer@) is None && lost_event_fields(buffer@, x),
            Err(e) => lost_event_error(buffer@) == Some(e),
        },
{
    require_len(buffer, 10)?;
    let bits = read_u64(buffer, 2);
    match EventFlags::from_bits(bits) {
        Some(flags) => Ok(flags),
        None => Err(EventError::Vendor(Error::BadEventFlags(bits))),
    }
}

/// The capacity of the crash dump data: an event holds at most 255 bytes, of which 40 are fixed.
pub const MAX_DEBUG_DATA_LEN: usize = 215;

/// The kind of fault reported by a crash report.
#[derive(Clone, Copy, Debug, PartialEq, Eq, Structural)]
pub enum CrashReason {
    /// An assertion failed.
    Assertion,
    /// An NMI fault.
    NmiFault,
    /// A hard fault.
    HardFault,
}

/// The crash reason that a byte names, or the error that carries it. Two codes are in use for
/// each fault kind, as the vendor's sources and manual disagree.
pub open spec fn crash_reason_of(value: u8) -> Result<CrashReason, Error> {
    match value {
        0 => Ok(CrashReason::Assertion),
        1 | 6 => Ok(CrashReason::NmiFault),
        2 | 7 => Ok(CrashReason::HardFault),
        _ => Err(Error::UnknownCrashReason(value)),
    }
}

impl TryFrom<u8> for CrashReason {
    type Error = Error;

    /// Maps the crash reason byte of the CrashReport event.
    fn try_from(value: u8) -> (r: Result<CrashReason, Error>) {
        match value {
            0 => Ok(CrashReason::Assertion),
            1 | 6 => Ok(CrashReason::NmiFault),
            2 | 7 => Ok(CrashReason::HardFault),
            _ => Err(Error::UnknownCrashReason(value)),
        }
    }
}

impl vstd::std_specs::convert::TryFromSpecImpl<u8> for CrashReason {
    open spec fn obeys_try_from_spec() -> bool {
        true
    }

    open spec fn try_from_spec(value: u8) -> Result<CrashReason, Error> {
        crash_reason_of(value)
    }
}

/// The registers and dump data that the controller reports after a crash.
#[derive(Clone, Copy, Debug)]
pub struct FaultData {
    /// Fault reason.
    pub reason: CrashReason,
    /// SP register.
    pub sp: u32,
    /// R0 register.
    pub r0: u32,
    /// R1 register.
    pub r1: u32,
    /// R2 register.
    pub r2: u32,
    /// R3 register.
    pub r3: u32,
    /// R12 register.
    pub r12: u32,
    /// LR register.
    pub lr: u32,
    /// PC register.
    pub pc: u32,
    /// xPSR register.
    pub xpsr: u32,
    /// Number of valid bytes in `debug_data`.
    pub debug_data_len: usize,
    /// Additional crash dump data; the bytes past `debug_data_len` are zero.
    pub debug_data: [u8; MAX_DEBUG_DATA_LEN],
}

/// The error of a CrashReport buffer, if any: at least 40 bytes, byte 39 gives the length of the
/// dump data that ends the buffer, and byte 2 is the crash reason.
pub open spec fn crash_report_error(b: Seq<u8>) -> Option<EventError> {
    first_error(
        min_len_error(b, 40),
        first_error(
            exact_len_error(b, (40 + b[39]) as usize),
            vendor_error(crash_reason_of(b[2])),
        ),
    )
}

/// The fields of a valid CrashReport buffer: the reason, nine 32-bit registers from byte 3 on,
/// and the dump data.
pub open spec fn crash_report_fields(b: Seq<u8>, f: FaultData) -> bool {
    &&& crash_reason_of(b[2]) == Ok::<CrashReason, Error>(f.reason)
    &&& f.sp as int == le32(b, 3)
    &&& f.r0 as int == le32(b, 7)
    &&& f.r1 as int == le32(b, 11)
    &&& f.r2 as int == le32(b, 15)
    &&& f.r3 as int == le32(b, 19)
    &&& f.r12 as int == le32(b, 23)
    &&& f.lr as int == le32(b, 27)
    &&& f.pc as int == le32(b, 31)
    &&& f.xpsr as int == le32(b, 35)
    &&& f.debug_data_len == b[39] as usize
    &&& f.debug_data@ == zero_padded(b.subrange(40, b.len() as int), MAX_DEBUG_DATA_LEN as nat)
}

/// Decodes the CrashReport event.
pub(crate) fn to_crash_report(buffer: &[u8]) -> (r: Result<FaultData, EventError>)
    requires
        buffer@.len() <= 255,
    ensures
        match r {
            Ok(x) => crash_report_error(buffer@) is None && crash_report_fields(buffer@, x),
            Err(e) => crash_report_error(buffer@) == Some(e),
        },
{
    require_len_at_least(buffer, 40)?;
    let debug_data_len = buffer[39] as usize;
    require_len(buffer, 40 + debug_data_len)?;
    let reason = match CrashReason::try_from(buffer[2]) {
        Ok(reason) => reason,
        Err(e) => return Err(EventError::Vendor(e)),
    };
    Ok(FaultData {
        reason,
        sp: read_u32(buffer, 3),
        r0: read_u32(buffer, 7),
        r1: read_u32(buffer, 11),
        r2: read_u32(buffer, 15),
        r3: read_u32(buffer, 19),
        r12: read_u32(buffer, 23),
        lr: read_u32(buffer, 27),
        pc: read_u32(buffer, 31),
        xpsr: read_u32(buffer, 35),
        debug_data_len,
        debug_data: copy_padded(buffer, 40, debug_data_len),
    })
}

/// Reset reason bytes 1 to 9 each name a reason, and no two the same one; every other byte is
/// rejected with the error that carries it.
pub proof fn lemma_reset_reason_bijective()
    ensures
        forall|v: u8| 1 <= v <= 9 ==> (#[trigger] reset_reason_of(v)) is Ok,
        forall|v: u8, w: u8|
            1 <= v <= 9 && 1 <= w <= 9 && v != w ==> #[trigger] reset_reason_of(v)
                != #[trigger] reset_reason_of(w),
        forall|v: u8|
            !(1 <= v <= 9) ==> #[trigger] reset_reason_of(v) == Err::<ResetReason, Error>(
                Error::UnknownResetReason(v),
            ),
{
}

/// An EventsLost buffer of the right length decodes exactly when no bit past the highest
/// defined one is set, and is otherwise rejected with the error that carries all 64 bits.
pub proof fn lemma_event_flags(b: Seq<u8>)
    requires
        b.len() == 10,
    ensures
        lost_event_error(b) is None <==> le64(b, 2) <= ALL_EVENT_FLAGS,
        le64(b, 2) > ALL_EVENT_FLAGS ==> lost_event_error(b) == Some(
            EventError::Vendor(Error::BadEventFlags(le64(b, 2) as u64)),
        ),
{
}

} // verus!
