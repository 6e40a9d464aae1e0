//! Identifiers shared by several events.

use vstd::prelude::*;
use crate::error::EventError;
use crate::wire::{le16, min_len_error, read_u16, require_len_at_least};

verus! {

/// A connection handle. For several events it is the only data; others carry it among their
/// parameters.
#[derive(Clone, Copy, Debug, PartialEq, Eq, Structural)]
pub struct ConnectionHandle(pub u16);

/// An attribute handle: an identifier, never an arithmetic value.
#[derive(Clone, Copy, Debug, PartialEq, Eq, Structural)]
pub struct AttributeHandle(pub u16);

/// The handle that ends an attribute group.
#[derive(Clone, Copy, Debug, PartialEq, Eq, Structural)]
pub struct GroupEndHandle(pub u16);

/// The six bytes of a Bluetooth device address, in the order of the wire.
#[derive(Clone, Copy, Debug, PartialEq, Eq)]
pub struct BdAddrBuffer(pub [u8; 6]);

/// The error of a buffer whose only field is a connection handle, if any: it holds at least
/// 4 bytes.
pub open spec fn conn_handle_error(b: Seq<u8>) -> Option<EventError> {
    min_len_error(b, 4)
}

/// The connection handle at bytes 2 and 3.
pub open spec fn conn_handle_fields(b: Seq<u8>, h: ConnectionHandle) -> bool {
    h.0 as int == le16(b, 2)
}

/// Decodes an event whose payload is the connection handle at bytes 2 and 3.
pub(crate) fn to_conn_handle(buffer: &[u8]) -> (r: Result<ConnectionHandle, EventError>)
    ensures
        match r {
            Ok(x) => conn_handle_error(buffer@) is None && conn_handle_fields(buffer@, x),
            Err(e) => conn_handle_error(buffer@) == Some(e),
        },
{
    require_len_at_least(buffer, 4)?;
    Ok(ConnectionHandle(read_u16(buffer, 2)))
}

} // verus!
