//! The code tables of the Attribute Protocol: error codes and request opcodes.

use vstd::prelude::*;
use crate::error::Error;

verus! {

/// The error codes of an ATT Error Response. Every byte is a code: besides the defined errors
/// there are reserved codes and application-defined codes (0x80 to 0x9F).
#[derive(Clone, Copy, Debug, PartialEq, Eq, Structural)]
pub enum AttError {
    /// Reserved code 0x00.
    Reserved0x00,
    /// The attribute handle given was not valid on this server.
    InvalidHandle,
    /// The attribute cannot be read.
    ReadNotPermitted,
    /// The attribute cannot be written.
    WriteNotPermitted,
    /// The attribute PDU was invalid.
    InvalidPdu,
    /// The attribute requires authentication before it can be read or written.
    InsufficientAuthentication,
    /// The server does not support the request received from the client.
    RequestNotSupported,
    /// The offset specified was past the end of the attribute.
    InvalidOffset,
    /// The attribute requires authorization before it can be read or written.
    InsufficientAuthorization,
    /// Too many prepare writes have been queued.
    PrepareQueueFull,
    /// No attribute was found within the given attribute handle range.
    AttributeNotFound,
    /// The attribute cannot be read or written using the Read Blob Request.
    AttributeNotLong,
    /// The encryption key size used for this link is insufficient.
    InsufficientEncryptionKeySize,
    /// The attribute value length is invalid for the operation.
    InvalidAttributeValueLength,
    /// The request met an unlikely error and could not be completed.
    UnlikelyError,
    /// The attribute requires encryption before it can be read or written.
    InsufficientEncryption,
    /// The attribute type is not a supported grouping attribute.
    UnsupportedGroupType,
    /// Insufficient resources to complete the request.
    InsufficientResources,
    /// Reserved code 0x12.
    Reserved0x12,
    /// Reserved code 0x13.
    Reserved0x13,
    /// Reserved code 0x14.
    Reserved0x14,
    /// Reserved code 0x15.
    Reserved0x15,
    /// Reserved code 0x16.
    Reserved0x16,
    /// Reserved code 0x17.
    Reserved0x17,
    /// Reserved code 0x18.
    Reserved0x18,
    /// Reserved code 0x19.
    Reserved0x19,
    /// Reserved code 0x1A.
    Reserved0x1A,
    /// Reserved code 0x1B.
    Reserved0x1B,
    /// Reserved code 0x1C.
    Reserved0x1C,
    /// Reserved code 0x1D.
    Reserved0x1D,
    /// Reserved code 0x1E.
    Reserved0x1E,
    /// Reserved code 0x1F.
    Reserved0x1F,
    /// Reserved code 0x20.
    Reserved0x20,
    /// Reserved code 0x21.
    Reserved0x21,
    /// Reserved code 0x22.
    Reserved0x22,
    /// Reserved code 0x23.
    Reserved0x23,
    /// Reserved code 0x24.
    Reserved0x24,
    /// Reserved code 0x25.
    Reserved0x25,
    /// Reserved code 0x26.
    Reserved0x26,
    /// Reserved code 0x27.
    Reserved0x27,
    /// Reserved code 0x28.
    Reserved0x28,
    /// Reserved code 0x29.
    Reserved0x29,
    /// Reserved code 0x2A.
    Reserved0x2A,
    /// Reserved code 0x2B.
    Reserved0x2B,
    /// Reserved code 0x2C.
    Reserved0x2C,
    /// Reserved code 0x2D.
    Reserved0x2D,
    /// Reserved code 0x2E.
    Reserved0x2E,
    /// Reserved code 0x2F.
    Reserved0x2F,
    /// Reserved code 0x30.
    Reserved0x30,
    /// Reserved code 0x31.
    Reserved0x31,
    /// Reserved code 0x32.
    Reserved0x32,
    /// Reserved code 0x33.
    Reserved0x33,
    /// Reserved code 0x34.
    Reserved0x34,
    /// Reserved code 0x35.
    Reserved0x35,
    /// Reserved code 0x36.
    Reserved0x36,
    /// Reserved code 0x37.
    Reserved0x37,
    /// Reserved code 0x38.
    Reserved0x38,
    /// Reserved code 0x39.
    Reserved0x39,
    /// Reserved code 0x3A.
    Reserved0x3A,
    /// Reserved code 0x3B.
    Reserved0x3B,
    /// Reserved code 0x3C.
    Reserved0x3C,
    /// Reserved code 0x3D.
    Reserved0x3D,
    /// Reserved code 0x3E.
    Reserved0x3E,
    /// Reserved code 0x3F.
    Reserved0x3F,
    /// Reserved code 0x40.
    Reserved0x40,
    /// Reserved code 0x41.
    Reserved0x41,
    /// Reserved code 0x42.
    Reserved0x42,
    /// Reserved code 0x43.
    Reserved0x43,
    /// Reserved code 0x44.
    Reserved0x44,
    /// Reserved code 0x45.
    Reserved0x45,
    /// Reserved code 0x46.
    Reserved0x46,
    /// Reserved code 0x47.
    Reserved0x47,
    /// Reserved code 0x48.
    Reserved0x48,
    /// Reserved code 0x49.
    Reserved0x49,
    /// Reserved code 0x4A.
    Reserved0x4A,
    /// Reserved code 0x4B.
    Reserved0x4B,
    /// Reserved code 0x4C.
    Reserved0x4C,
    /// Reserved code 0x4D.
    Reserved0x4D,
    /// Reserved code 0x4E.
    Reserved0x4E,
    /// Reserved code 0x4F.
    Reserved0x4F,
    /// Reserved code 0x50.
    Reserved0x50,
    /// Reserved code 0x51.
    Reserved0x51,
    /// Reserved code 0x52.
    Reserved0x52,
    /// Reserved code 0x53.
    Reserved0x53,
    /// Reserved code 0x54.
    Reserved0x54,
    /// Reserved code 0x55.
    Reserved0x55,
    /// Reserved code 0x56.
    Reserved0x56,
    /// Reserved code 0x57.
    Reserved0x57,
    /// Reserved code 0x58.
    Reserved0x58,
    /// Reserved code 0x59.
    Reserved0x59,
    /// Reserved code 0x5A.
    Reserved0x5A,
    /// Reserved code 0x5B.
    Reserved0x5B,
    /// Reserved code 0x5C.
    Reserved0x5C,
    /// Reserved code 0x5D.
    Reserved0x5D,
    /// Reserved code 0x5E.
    Reserved0x5E,
    /// Reserved code 0x5F.
    Reserved0x5F,
    /// Reserved code 0x60.
    Reserved0x60,
    /// Reserved code 0x61.
    Reserved0x61,
    /// Reserved code 0x62.
    Reserved0x62,
    /// Reserved code 0x63.
    Reserved0x63,
    /// Reserved code 0x64.
    Reserved0x64,
    /// Reserved code 0x65.
    Reserved0x65,
    /// Reserved code 0x66.
    Reserved0x66,
    /// Reserved code 0x67.
    Reserved0x67,
    /// Reserved code 0x68.
    Reserved0x68,
    /// Reserved code 0x69.
    Reserved0x69,
    /// Reserved code 0x6A.
    Reserved0x6A,
    /// Reserved code 0x6B.
    Reserved0x6B,
    /// Reserved code 0x6C.
    Reserved0x6C,
    /// Reserved code 0x6D.
    Reserved0x6D,
    /// Reserved code 0x6E.
    Reserved0x6E,
    /// Reserved code 0x6F.
    Reserved0x6F,
    /// Reserved code 0x70.
    Reserved0x70,
    /// Reserved code 0x71.
    Reserved0x71,
    /// Reserved code 0x72.
    Reserved0x72,
    /// Reserved code 0x73.
    Reserved0x73,
    /// Reserved code 0x74.
    Reserved0x74,
    /// Reserved code 0x75.
    Reserved0x75,
    /// Reserved code 0x76.
    Reserved0x76,
    /// Reserved code 0x77.
    Reserved0x77,
    /// Reserved code 0x78.
    Reserved0x78,
    /// Reserved code 0x79.
    Reserved0x79,
    /// Reserved code 0x7A.
    Reserved0x7A,
    /// Reserved code 0x7B.
    Reserved0x7B,
    /// Reserved code 0x7C.
    Reserved0x7C,
    /// Reserved code 0x7D.
    Reserved0x7D,
    /// Reserved code 0x7E.
    Reserved0x7E,
    /// Reserved code 0x7F.
    Reserved0x7F,
    /// Application error code 0x80.
    ApplicationError0x80,
    /// Application error code 0x81.
    ApplicationError0x81,
    /// Application error code 0x82.
    ApplicationError0x82,
    /// Application error code 0x83.
    ApplicationError0x83,
    /// Application error code 0x84.
    ApplicationError0x84,
    /// Application error code 0x85.
    ApplicationError0x85,
    /// Application error code 0x86.
    ApplicationError0x86,
    /// Application error code 0x87.
    ApplicationError0x87,
    /// Application error code 0x88.
    ApplicationError0x88,
    /// Application error code 0x89.
    ApplicationError0x89,
    /// Application error code 0x8A.
    ApplicationError0x8A,
    /// Application error code 0x8B.
    ApplicationError0x8B,
    /// Application error code 0x8C.
    ApplicationError0x8C,
    /// Application error code 0x8D.
    ApplicationError0x8D,
    /// Application error code 0x8E.
    ApplicationError0x8E,
    /// Application error code 0x8F.
    ApplicationError0x8F,
    /// Application error code 0x90.
    ApplicationError0x90,
    /// Application error code 0x91.
    ApplicationError0x91,
    /// Application error code 0x92.
    ApplicationError0x92,
    /// Application error code 0x93.
    ApplicationError0x93,
    /// Application error code 0x94.
    ApplicationError0x94,
    /// Application error code 0x95.
    ApplicationError0x95,
    /// Application error code 0x96.
    ApplicationError0x96,
    /// Application error code 0x97.
    ApplicationError0x97,
    /// Application error code 0x98.
    ApplicationError0x98,
    /// Application error code 0x99.
    ApplicationError0x99,
    /// Application error code 0x9A.
    ApplicationError0x9A,
    /// Application error code 0x9B.
    ApplicationError0x9B,
    /// Application error code 0x9C.
    ApplicationError0x9C,
    /// Application error code 0x9D.
    ApplicationError0x9D,
    /// Application error code 0x9E.
    ApplicationError0x9E,
    /// Application error code 0x9F.
    ApplicationError0x9F,
    /// Reserved code 0xA0.
    Reserveda0h,
    /// Reserved code 0xA1.
    Reserved0xA1,
    /// Reserved code 0xA2.
    Reserved0xA2,
    /// Reserved code 0xA3.
    Reserved0xA3,
    /// Reserved code 0xA4.
    Reserved0xA4,
    /// Reserved code 0xA5.
    Reserved0xA5,
    /// Reserved code 0xA6.
    Reserved0xA6,
    /// Reserved code 0xA7.
    Reserved0xA7,
    /// Reserved code 0xA8.
    Reserved0xA8,
    /// Reserved code 0xA9.
    Reserved0xA9,
    /// Reserved code 0xAA.
    Reserved0xAA,
    /// Reserved code 0xAB.
    Reserved0xAB,
    /// Reserved code 0xAC.
    Reserved0xAC,
    /// Reserved code 0xAD.
    Reserved0xAD,
    /// Reserved code 0xAE.
    Reserved0xAE,
    /// Reserved code 0xAF.
    Reserved0xAF,
    /// Reserved code 0xB0.
    Reserved0xB0,
    /// Reserved code 0xB1.
    Reserved0xB1,
    /// Reserved code 0xB2.
    Reserved0xB2,
    /// Reserved code 0xB3.
    Reserved0xB3,
    /// Reserved code 0xB4.
    Reserved0xB4,
    /// Reserved code 0xB5.
    Reserved0xB5,
    /// Reserved code 0xB6.
    Reserved0xB6,
    /// Reserved code 0xB7.
    Reserved0xB7,
    /// Reserved code 0xB8.
    Reserved0xB8,
    /// Reserved code 0xB9.
    Reserved0xB9,
    /// Reserved code 0xBA.
    Reserved0xBA,
    /// Reserved code 0xBB.
    Reserved0xBB,
    /// Reserved code 0xBC.
    Reserved0xBC,
    /// Reserved code 0xBD.
    Reserved0xBD,
    /// Reserved code 0xBE.
    Reserved0xBE,
    /// Reserved code 0xBF.
    Reserved0xBF,
    /// Reserved code 0xC0.
    Reserved0xC0,
    /// Reserved code 0xC1.
    Reserved0xC1,
    /// Reserved code 0xC2.
    Reserved0xC2,
    /// Reserved code 0xC3.
    Reserved0xC3,
    /// Reserved code 0xC4.
    Reserved0xC4,
    /// Reserved code 0xC5.
    Reserved0xC5,
    /// Reserved code 0xC6.
    Reserved0xC6,
    /// Reserved code 0xC7.
    Reserved0xC7,
    /// Reserved code 0xC8.
    Reserved0xC8,
    /// Reserved code 0xC9.
    Reserved0xC9,
    /// Reserved code 0xCA.
    Reserved0xCA,
    /// Reserved code 0xCB.
    Reserved0xCB,
    /// Reserved code 0xCC.
    Reserved0xCC,
    /// Reserved code 0xCD.
    Reserved0xCD,
    /// Reserved code 0xCE.
    Reserved0xCE,
    /// Reserved code 0xCF.
    Reserved0xCF,
    /// Reserved code 0xD0.
    Reserved0xD0,
    /// Reserved code 0xD1.
    Reserved0xD1,
    /// Reserved code 0xD2.
    Reserved0xD2,
    /// Reserved code 0xD3.
    Reserved0xD3,
    /// Reserved code 0xD4.
    Reserved0xD4,
    /// Reserved code 0xD5.
    Reserved0xD5,
    /// Reserved code 0xD6.
    Reserved0xD6,
    /// Reserved code 0xD7.
    Reserved0xD7,
    /// Reserved code 0xD8.
    Reserved0xD8,
    /// Reserved code 0xD9.
    Reserved0xD9,
    /// Reserved code 0xDA.
    Reserved0xDA,
    /// Reserved code 0xDB.
    Reserved0xDB,
    /// Reserved code 0xDC.
    Reserved0xDC,
    /// Reserved code 0xDD.
    Reserved0xDD,
    /// Reserved code 0xDE.
    Reserved0xDE,
    /// Reserved code 0xDF.
    Reserved0xDF,
    /// Reserved code 0xE0.
    Reserved0xE0,
    /// Reserved code 0xE1.
    Reserved0xE1,
    /// Reserved code 0xE2.
    Reserved0xE2,
    /// Reserved code 0xE3.
    Reserved0xE3,
    /// Reserved code 0xE4.
    Reserved0xE4,
    /// Reserved code 0xE5.
    Reserved0xE5,
    /// Reserved code 0xE6.
    Reserved0xE6,
    /// Reserved code 0xE7.
    Reserved0xE7,
    /// Reserved code 0xE8.
    Reserved0xE8,
    /// Reserved code 0xE9.
    Reserved0xE9,
    /// Reserved code 0xEA.
    Reserved0xEA,
    /// Reserved code 0xEB.
    Reserved0xEB,
    /// Reserved code 0xEC.
    Reserved0xEC,
    /// Reserved code 0xED.
    Reserved0xED,
    /// Reserved code 0xEE.
    Reserved0xEE,
    /// Reserved code 0xEF.
    Reserved0xEF,
    /// Reserved code 0xF0.
    Reserved0xF0,
    /// Reserved code 0xF1.
    Reserved0xF1,
    /// Reserved code 0xF2.
    Reserved0xF2,
    /// Reserved code 0xF3.
    Reserved0xF3,
    /// Reserved code 0xF4.
    Reserved0xF4,
    /// Reserved code 0xF5.
    Reserved0xF5,
    /// Reserved code 0xF6.
    Reserved0xF6,
    /// Reserved code 0xF7.
    Reserved0xF7,
    /// Reserved code 0xF8.
    Reserved0xF8,
    /// Reserved code 0xF9.
    Reserved0xF9,
    /// Reserved code 0xFA.
    Reserved0xFA,
    /// Reserved code 0xFB.
    Reserved0xFB,
    /// The write request was rejected.
    WriteRequestRejected,
    /// The client characteristic configuration descriptor is improperly configured.
    ClientCharacteristicConfigurationDescriptorImproperlyConfigured,
    /// A procedure is already in progress.
    ProcedureAlreadyInProgress,
    /// The attribute value is out of range.
    OutOfRange,
}

/// The byte that stands for an error code on the wire.
pub open spec fn att_error_code(e: AttError) -> u8 {
    match e {
        AttError::Reserved0x00 => 0x00,
        AttError::InvalidHandle => 0x01,
        AttError::ReadNotPermitted => 0x02,
        AttError::WriteNotPermitted => 0x03,
        AttError::InvalidPdu => 0x04,
        AttError::InsufficientAuthentication => 0x05,
        AttError::RequestNotSupported => 0x06,
        AttError::InvalidOffset => 0x07,
        AttError::InsufficientAuthorization => 0x08,
        AttError::PrepareQueueFull => 0x09,
        AttError::AttributeNotFound => 0x0A,
        AttError::AttributeNotLong => 0x0B,
        AttError::InsufficientEncryptionKeySize => 0x0C,
        AttError::InvalidAttributeValueLength => 0x0D,
        AttError::UnlikelyError => 0x0E,
        AttError::InsufficientEncryption => 0x0F,
        AttError::UnsupportedGroupType => 0x10,
        AttError::InsufficientResources => 0x11,
        AttError::Reserved0x12 => 0x12,
        AttError::Reserved0x13 => 0x13,
        AttError::Reserved0x14 => 0x14,
        AttError::Reserved0x15 => 0x15,
        AttError::Reserved0x16 => 0x16,
        AttError::Reserved0x17 => 0x17,
        AttError::Reserved0x18 => 0x18,
        AttError::Reserved0x19 => 0x19,
        AttError::Reserved0x1A => 0x1A,
        AttError::Reserved0x1B => 0x1B,
        AttError::Reserved0x1C => 0x1C,
        AttError::Reserved0x1D => 0x1D,
        AttError::Reserved0x1E => 0x1E,
        AttError::Reserved0x1F => 0x1F,
        AttError::Reserved0x20 => 0x20,
        AttError::Reserved0x21 => 0x21,
        AttError::Reserved0x22 => 0x22,
        AttError::Reserved0x23 => 0x23,
        AttError::Reserved0x24 => 0x24,
        AttError::Reserved0x25 => 0x25,
        AttError::Reserved0x26 => 0x26,
        AttError::Reserved0x27 => 0x27,
        AttError::Reserved0x28 => 0x28,
        AttError::Reserved0x29 => 0x29,
        AttError::Reserved0x2A => 0x2A,
        AttError::Reserved0x2B => 0x2B,
        AttError::Reserved0x2C => 0x2C,
        AttError::Reserved0x2D => 0x2D,
        AttError::Reserved0x2E => 0x2E,
        AttError::Reserved0x2F => 0x2F,
        AttError::Reserved0x30 => 0x30,
        AttError::Reserved0x31 => 0x31,
        AttError::Reserved0x32 => 0x32,
        AttError::Reserved0x33 => 0x33,
        AttError::Reserved0x34 => 0x34,
        AttError::Reserved0x35 => 0x35,
        AttError::Reserved0x36 => 0x36,
        AttError::Reserved0x37 => 0x37,
        AttError::Reserved0x38 => 0x38,
        AttError::Reserved0x39 => 0x39,
        AttError::Reserved0x3A => 0x3A,
        AttError::Reserved0x3B => 0x3B,
        AttError::Reserved0x3C => 0x3C,
        AttError::Reserved0x3D => 0x3D,
        AttError::Reserved0x3E => 0x3E,
        AttError::Reserved0x3F => 0x3F,
        AttError::Reserved0x40 => 0x40,
        AttError::Reserved0x41 => 0x41,
        AttError::Reserved0x42 => 0x42,
        AttError::Reserved0x43 => 0x43,
        AttError::Reserved0x44 => 0x44,
        AttError::Reserved0x45 => 0x45,
        AttError::Reserved0x46 => 0x46,
        AttError::Reserved0x47 => 0x47,
        AttError::Reserved0x48 => 0x48,
        AttError::Reserved0x49 => 0x49,
        AttError::Reserved0x4A => 0x4A,
        AttError::Reserved0x4B => 0x4B,
        AttError::Reserved0x4C => 0x4C,
        AttError::Reserved0x4D => 0x4D,
        AttError::Reserved0x4E => 0x4E,
        AttError::Reserved0x4F => 0x4F,
        AttError::Reserved0x50 => 0x50,
        AttError::Reserved0x51 => 0x51,
        AttError::Reserved0x52 => 0x52,
        AttError::Reserved0x53 => 0x53,
        AttError::Reserved0x54 => 0x54,
        AttError::Reserved0x55 => 0x55,
        AttError::Reserved0x56 => 0x56,
        AttError::Reserved0x57 => 0x57,
        AttError::Reserved0x58 => 0x58,
        AttError::Reserved0x59 => 0x59,
        AttError::Reserved0x5A => 0x5A,
        AttError::Reserved0x5B => 0x5B,
        AttError::Reserved0x5C => 0x5C,
        AttError::Reserved0x5D => 0x5D,
        AttError::Reserved0x5E => 0x5E,
        AttError::Reserved0x5F => 0x5F,
        AttError::Reserved0x60 => 0x60,
        AttError::Reserved0x61 => 0x61,
        AttError::Reserved0x62 => 0x62,
        AttError::Reserved0x63 => 0x63,
        AttError::Reserved0x64 => 0x64,
        AttError::Reserved0x65 => 0x65,
        AttError::Reserved0x66 => 0x66,
        AttError::Reserved0x67 => 0x67,
        AttError::Reserved0x68 => 0x68,
        AttError::Reserved0x69 => 0x69,
        AttError::Reserved0x6A => 0x6A,
        AttError::Reserved0x6B => 0x6B,
        AttError::Reserved0x6C => 0x6C,
        AttError::Reserved0x6D => 0x6D,
        AttError::Reserved0x6E => 0x6E,
        AttError::Reserved0x6F => 0x6F,
        AttError::Reserved0x70 => 0x70,
        AttError::Reserved0x71 => 0x71,
        AttError::Reserved0x72 => 0x72,
        AttError::Reserved0x73 => 0x73,
        AttError::Reserved0x74 => 0x74,
        AttError::Reserved0x75 => 0x75,
        AttError::Reserved0x76 => 0x76,
        AttError::Reserved0x77 => 0x77,
        AttError::Reserved0x78 => 0x78,
        AttError::Reserved0x79 => 0x79,
        AttError::Reserved0x7A => 0x7A,
        AttError::Reserved0x7B => 0x7B,
        AttError::Reserved0x7C => 0x7C,
        AttError::Reserved0x7D => 0x7D,
        AttError::Reserved0x7E => 0x7E,
        AttError::Reserved0x7F => 0x7F,
        AttError::ApplicationError0x80 => 0x80,
        AttError::ApplicationError0x81 => 0x81,
        AttError::ApplicationError0x82 => 0x82,
        AttError::ApplicationError0x83 => 0x83,
        AttError::ApplicationError0x84 => 0x84,
        AttError::ApplicationError0x85 => 0x85,
        AttError::ApplicationError0x86 => 0x86,
        AttError::ApplicationError0x87 => 0x87,
        AttError::ApplicationError0x88 => 0x88,
        AttError::ApplicationError0x89 => 0x89,
        AttError::ApplicationError0x8A => 0x8A,
        AttError::ApplicationError0x8B => 0x8B,
        AttError::ApplicationError0x8C => 0x8C,
        AttError::ApplicationError0x8D => 0x8D,
        AttError::ApplicationError0x8E => 0x8E,
        AttError::ApplicationError0x8F => 0x8F,
        AttError::ApplicationError0x90 => 0x90,
        AttError::ApplicationError0x91 => 0x91,
        AttError::ApplicationError0x92 => 0x92,
        AttError::ApplicationError0x93 => 0x93,
        AttError::ApplicationError0x94 => 0x94,
        AttError::ApplicationError0x95 => 0x95,
        AttError::ApplicationError0x96 => 0x96,
        AttError::ApplicationError0x97 => 0x97,
        AttError::ApplicationError0x98 => 0x98,
        AttError::ApplicationError0x99 => 0x99,
        AttError::ApplicationError0x9A => 0x9A,
        AttError::ApplicationError0x9B => 0x9B,
        AttError::ApplicationError0x9C => 0x9C,
        AttError::ApplicationError0x9D => 0x9D,
        AttError::ApplicationError0x9E => 0x9E,
        AttError::ApplicationError0x9F => 0x9F,
        AttError::Reserveda0h => 0xA0,
        AttError::Reserved0xA1 => 0xA1,
        AttError::Reserved0xA2 => 0xA2,
        AttError::Reserved0xA3 => 0xA3,
        AttError::Reserved0xA4 => 0xA4,
        AttError::Reserved0xA5 => 0xA5,
        AttError::Reserved0xA6 => 0xA6,
        AttError::Reserved0xA7 => 0xA7,
        AttError::Reserved0xA8 => 0xA8,
        AttError::Reserved0xA9 => 0xA9,
        AttError::Reserved0xAA => 0xAA,
        AttError::Reserved0xAB => 0xAB,
        AttError::Reserved0xAC => 0xAC,
        AttError::Reserved0xAD => 0xAD,
        AttError::Reserved0xAE => 0xAE,
        AttError::Reserved0xAF => 0xAF,
        AttError::Reserved0xB0 => 0xB0,
        AttError::Reserved0xB1 => 0xB1,
        AttError::Reserved0xB2 => 0xB2,
        AttError::Reserved0xB3 => 0xB3,
        AttError::Reserved0xB4 => 0xB4,
        AttError::Reserved0xB5 => 0xB5,
        AttError::Reserved0xB6 => 0xB6,
        AttError::Reserved0xB7 => 0xB7,
        AttError::Reserved0xB8 => 0xB8,
        AttError::Reserved0xB9 => 0xB9,
        AttError::Reserved0xBA => 0xBA,
        AttError::Reserved0xBB => 0xBB,
        AttError::Reserved0xBC => 0xBC,
        AttError::Reserved0xBD => 0xBD,
        AttError::Reserved0xBE => 0xBE,
        AttError::Reserved0xBF => 0xBF,
        AttError::Reserved0xC0 => 0xC0,
        AttError::Reserved0xC1 => 0xC1,
        AttError::Reserved0xC2 => 0xC2,
        AttError::Reserved0xC3 => 0xC3,
        AttError::Reserved0xC4 => 0xC4,
        AttError::Reserved0xC5 => 0xC5,
        AttError::Reserved0xC6 => 0xC6,
        AttError::Reserved0xC7 => 0xC7,
        AttError::Reserved0xC8 => 0xC8,
        AttError::Reserved0xC9 => 0xC9,
        AttError::Reserved0xCA => 0xCA,
        AttError::Reserved0xCB => 0xCB,
        AttError::Reserved0xCC => 0xCC,
        AttError::Reserved0xCD => 0xCD,
        AttError::Reserved0xCE => 0xCE,
        AttError::Reserved0xCF => 0xCF,
        AttError::Reserved0xD0 => 0xD0,
        AttError::Reserved0xD1 => 0xD1,
        AttError::Reserved0xD2 => 0xD2,
        AttError::Reserved0xD3 => 0xD3,
        AttError::Reserved0xD4 => 0xD4,
        AttError::Reserved0xD5 => 0xD5,
        AttError::Reserved0xD6 => 0xD6,
        AttError::Reserved0xD7 => 0xD7,
        AttError::Reserved0xD8 => 0xD8,
        AttError::Reserved0xD9 => 0xD9,
        AttError::Reserved0xDA => 0xDA,
        AttError::Reserved0xDB => 0xDB,
        AttError::Reserved0xDC => 0xDC,
        AttError::Reserved0xDD => 0xDD,
        AttError::Reserved0xDE => 0xDE,
        AttError::Reserved0xDF => 0xDF,
        AttError::Reserved0xE0 => 0xE0,
        AttError::Reserved0xE1 => 0xE1,
        AttError::Reserved0xE2 => 0xE2,
        AttError::Reserved0xE3 => 0xE3,
        AttError::Reserved0xE4 => 0xE4,
        AttError::Reserved0xE5 => 0xE5,
        AttError::Reserved0xE6 => 0xE6,
        AttError::Reserved0xE7 => 0xE7,
        AttError::Reserved0xE8 => 0xE8,
        AttError::Reserved0xE9 => 0xE9,
        AttError::Reserved0xEA => 0xEA,
        AttError::Reserved0xEB => 0xEB,
        AttError::Reserved0xEC => 0xEC,
        AttError::Reserved0xED => 0xED,
        AttError::Reserved0xEE => 0xEE,
        AttError::Reserved0xEF => 0xEF,
        AttError::Reserved0xF0 => 0xF0,
        AttError::Reserved0xF1 => 0xF1,
        AttError::Reserved0xF2 => 0xF2,
        AttError::Reserved0xF3 => 0xF3,
        AttError::Reserved0xF4 => 0xF4,
        AttError::Reserved0xF5 => 0xF5,
        AttError::Reserved0xF6 => 0xF6,
        AttError::Reserved0xF7 => 0xF7,
        AttError::Reserved0xF8 => 0xF8,
        AttError::Reserved0xF9 => 0xF9,
        AttError::Reserved0xFA => 0xFA,
        AttError::Reserved0xFB => 0xFB,
        AttError::WriteRequestRejected => 0xFC,
        AttError::ClientCharacteristicConfigurationDescriptorImproperlyConfigured => 0xFD,
        AttError::ProcedureAlreadyInProgress => 0xFE,
        AttError::OutOfRange => 0xFF,
    }
}

/// The error code that a byte stands for.
pub open spec fn att_error_of(value: u8) -> AttError {
    match value {
        0x00 => AttError::Reserved0x00,
        0x01 => AttError::InvalidHandle,
        0x02 => AttError::ReadNotPermitted,
        0x03 => AttError::WriteNotPermitted,
        0x04 => AttError::InvalidPdu,
        0x05 => AttError::InsufficientAuthentication,
        0x06 => AttError::RequestNotSupported,
        0x07 => AttError::InvalidOffset,
        0x08 => AttError::InsufficientAuthorization,
        0x09 => AttError::PrepareQueueFull,
        0x0A => AttError::AttributeNotFound,
        0x0B => AttError::AttributeNotLong,
        0x0C => AttError::InsufficientEncryptionKeySize,
        0x0D => AttError::InvalidAttributeValueLength,
        0x0E => AttError::UnlikelyError,
        0x0F => AttError::InsufficientEncryption,
        0x10 => AttError::UnsupportedGroupType,
        0x11 => AttError::InsufficientResources,
        0x12 => AttError::Reserved0x12,
        0x13 => AttError::Reserved0x13,
        0x14 => AttError::Reserved0x14,
        0x15 => AttError::Reserved0x15,
        0x16 => AttError::Reserved0x16,
        0x17 => AttError::Reserved0x17,
        0x18 => AttError::Reserved0x18,
        0x19 => AttError::Reserved0x19,
        0x1A => AttError::Reserved0x1A,
        0x1B => AttError::Reserved0x1B,
        0x1C => AttError::Reserved0x1C,
        0x1D => AttError::Reserved0x1D,
        0x1E => AttError::Reserved0x1E,
        0x1F => AttError::Reserved0x1F,
        0x20 => AttError::Reserved0x20,
        0x21 => AttError::Reserved0x21,
        0x22 => AttError::Reserved0x22,
        0x23 => AttError::Reserved0x23,
        0x24 => AttError::Reserved0x24,
        0x25 => AttError::Reserved0x25,
        0x26 => AttError::Reserved0x26,
        0x27 => AttError::Reserved0x27,
        0x28 => AttError::Reserved0x28,
        0x29 => AttError::Reserved0x29,
        0x2A => AttError::Reserved0x2A,
        0x2B => AttError::Reserved0x2B,
        0x2C => AttError::Reserved0x2C,
        0x2D => AttError::Reserved0x2D,
        0x2E => AttError::Reserved0x2E,
        0x2F => AttError::Reserved0x2F,
        0x30 => AttError::Reserved0x30,
        0x31 => AttError::Reserved0x31,
        0x32 => AttError::Reserved0x32,
        0x33 => AttError::Reserved0x33,
        0x34 => AttError::Reserved0x34,
        0x35 => AttError::Reserved0x35,
        0x36 => AttError::Reserved0x36,
        0x37 => AttError::Reserved0x37,
        0x38 => AttError::Reserved0x38,
        0x39 => AttError::Reserved0x39,
        0x3A => AttError::Reserved0x3A,
        0x3B => AttError::Reserved0x3B,
        0x3C => AttError::Reserved0x3C,
        0x3D => AttError::Reserved0x3D,
        0x3E => AttError::Reserved0x3E,
        0x3F => AttError::Reserved0x3F,
        0x40 => AttError::Reserved0x40,
        0x41 => AttError::Reserved0x41,
        0x42 => AttError::Reserved0x42,
        0x43 => AttError::Reserved0x43,
        0x44 => AttError::Reserved0x44,
        0x45 => AttError::Reserved0x45,
        0x46 => AttError::Reserved0x46,
        0x47 => AttError::Reserved0x47,
        0x48 => AttError::Reserved0x48,
        0x49 => AttError::Reserved0x49,
        0x4A => AttError::Reserved0x4A,
        0x4B => AttError::Reserved0x4B,
        0x4C => AttError::Reserved0x4C,
        0x4D => AttError::Reserved0x4D,
        0x4E => AttError::Reserved0x4E,
        0x4F => AttError::Reserved0x4F,
        0x50 => AttError::Reserved0x50,
        0x51 => AttError::Reserved0x51,
        0x52 => AttError::Reserved0x52,
        0x53 => AttError::Reserved0x53,
        0x54 => AttError::Reserved0x54,
        0x55 => AttError::Reserved0x55,
        0x56 => AttError::Reserved0x56,
        0x57 => AttError::Reserved0x57,
        0x58 => AttError::Reserved0x58,
        0x59 => AttError::Reserved0x59,
        0x5A => AttError::Reserved0x5A,
        0x5B => AttError::Reserved0x5B,
        0x5C => AttError::Reserved0x5C,
        0x5D => AttError::Reserved0x5D,
        0x5E => AttError::Reserved0x5E,
        0x5F => AttError::Reserved0x5F,
        0x60 => AttError::Reserved0x60,
        0x61 => AttError::Reserved0x61,
        0x62 => AttError::Reserved0x62,
        0x63 => AttError::Reserved0x63,
        0x64 => AttError::Reserved0x64,
        0x65 => AttError::Reserved0x65,
        0x66 => AttError::Reserved0x66,
        0x67 => AttError::Reserved0x67,
        0x68 => AttError::Reserved0x68,
        0x69 => AttError::Reserved0x69,
        0x6A => AttError::Reserved0x6A,
        0x6B => AttError::Reserved0x6B,
        0x6C => AttError::Reserved0x6C,
        0x6D => AttError::Reserved0x6D,
        0x6E => AttError::Reserved0x6E,
        0x6F => AttError::Reserved0x6F,
        0x70 => AttError::Reserved0x70,
        0x71 => AttError::Reserved0x71,
        0x72 => AttError::Reserved0x72,
        0x73 => AttError::Reserved0x73,
        0x74 => AttError::Reserved0x74,
        0x75 => AttError::Reserved0x75,
        0x76 => AttError::Reserved0x76,
        0x77 => AttError::Reserved0x77,
        0x78 => AttError::Reserved0x78,
        0x79 => AttError::Reserved0x79,
        0x7A => AttError::Reserved0x7A,
        0x7B => AttError::Reserved0x7B,
        0x7C => AttError::Reserved0x7C,
        0x7D => AttError::Reserved0x7D,
        0x7E => AttError::Reserved0x7E,
        0x7F => AttError::Reserved0x7F,
        0x80 => AttError::ApplicationError0x80,
        0x81 => AttError::ApplicationError0x81,
        0x82 => AttError::ApplicationError0x82,
        0x83 => AttError::ApplicationError0x83,
        0x84 => AttError::ApplicationError0x84,
        0x85 => AttError::ApplicationError0x85,
        0x86 => AttError::ApplicationError0x86,
        0x87 => AttError::ApplicationError0x87,
        0x88 => AttError::ApplicationError0x88,
        0x89 => AttError::ApplicationError0x89,
        0x8A => AttError::ApplicationError0x8A,
        0x8B => AttError::ApplicationError0x8B,
        0x8C => AttError::ApplicationError0x8C,
        0x8D => AttError::ApplicationError0x8D,
        0x8E => AttError::ApplicationError0x8E,
        0x8F => AttError::ApplicationError0x8F,
        0x90 => AttError::ApplicationError0x90,
        0x91 => AttError::ApplicationError0x91,
        0x92 => AttError::ApplicationError0x92,
        0x93 => AttError::ApplicationError0x93,
        0x94 => AttError::ApplicationError0x94,
        0x95 => AttError::ApplicationError0x95,
        0x96 => AttError::ApplicationError0x96,
        0x97 => AttError::ApplicationError0x97,
        0x98 => AttError::ApplicationError0x98,
        0x99 => AttError::ApplicationError0x99,
        0x9A => AttError::ApplicationError0x9A,
        0x9B => AttError::ApplicationError0x9B,
        0x9C => AttError::ApplicationError0x9C,
        0x9D => AttError::ApplicationError0x9D,
        0x9E => AttError::ApplicationError0x9E,
        0x9F => AttError::ApplicationError0x9F,
        0xA0 => AttError::Reserveda0h,
        0xA1 => AttError::Reserved0xA1,
        0xA2 => AttError::Reserved0xA2,
        0xA3 => AttError::Reserved0xA3,
        0xA4 => AttError::Reserved0xA4,
        0xA5 => AttError::Reserved0xA5,
        0xA6 => AttError::Reserved0xA6,
        0xA7 => AttError::Reserved0xA7,
        0xA8 => AttError::Reserved0xA8,
        0xA9 => AttError::Reserved0xA9,
        0xAA => AttError::Reserved0xAA,
        0xAB => AttError::Reserved0xAB,
        0xAC => AttError::Reserved0xAC,
        0xAD => AttError::Reserved0xAD,
        0xAE => AttError::Reserved0xAE,
        0xAF => AttError::Reserved0xAF,
        0xB0 => AttError::Reserved0xB0,
        0xB1 => AttError::Reserved0xB1,
        0xB2 => AttError::Reserved0xB2,
        0xB3 => AttError::Reserved0xB3,
        0xB4 => AttError::Reserved0xB4,
        0xB5 => AttError::Reserved0xB5,
        0xB6 => AttError::Reserved0xB6,
        0xB7 => AttError::Reserved0xB7,
        0xB8 => AttError::Reserved0xB8,
        0xB9 => AttError::Reserved0xB9,
        0xBA => AttError::Reserved0xBA,
        0xBB => AttError::Reserved0xBB,
        0xBC => AttError::Reserved0xBC,
        0xBD => AttError::Reserved0xBD,
        0xBE => AttError::Reserved0xBE,
        0xBF => AttError::Reserved0xBF,
        0xC0 => AttError::Reserved0xC0,
        0xC1 => AttError::Reserved0xC1,
        0xC2 => AttError::Reserved0xC2,
        0xC3 => AttError::Reserved0xC3,
        0xC4 => AttError::Reserved0xC4,
        0xC5 => AttError::Reserved0xC5,
        0xC6 => AttError::Reserved0xC6,
        0xC7 => AttError::Reserved0xC7,
        0xC8 => AttError::Reserved0xC8,
        0xC9 => AttError::Reserved0xC9,
        0xCA => AttError::Reserved0xCA,
        0xCB => AttError::Reserved0xCB,
        0xCC => AttError::Reserved0xCC,
        0xCD => AttError::Reserved0xCD,
        0xCE => AttError::Reserved0xCE,
        0xCF => AttError::Reserved0xCF,
        0xD0 => AttError::Reserved0xD0,
        0xD1 => AttError::Reserved0xD1,
        0xD2 => AttError::Reserved0xD2,
        0xD3 => AttError::Reserved0xD3,
        0xD4 => AttError::Reserved0xD4,
        0xD5 => AttError::Reserved0xD5,
        0xD6 => AttError::Reserved0xD6,
        0xD7 => AttError::Reserved0xD7,
        0xD8 => AttError::Reserved0xD8,
        0xD9 => AttError::Reserved0xD9,
        0xDA => AttError::Reserved0xDA,
        0xDB => AttError::Reserved0xDB,
        0xDC => AttError::Reserved0xDC,
        0xDD => AttError::Reserved0xDD,
        0xDE => AttError::Reserved0xDE,
        0xDF => AttError::Reserved0xDF,
        0xE0 => AttError::Reserved0xE0,
        0xE1 => AttError::Reserved0xE1,
        0xE2 => AttError::Reserved0xE2,
        0xE3 => AttError::Reserved0xE3,
        0xE4 => AttError::Reserved0xE4,
        0xE5 => AttError::Reserved0xE5,
        0xE6 => AttError::Reserved0xE6,
        0xE7 => AttError::Reserved0xE7,
        0xE8 => AttError::Reserved0xE8,
        0xE9 => AttError::Reserved0xE9,
        0xEA => AttError::Reserved0xEA,
        0xEB => AttError::Reserved0xEB,
        0xEC => AttError::Reserved0xEC,
        0xED => AttError::Reserved0xED,
        0xEE => AttError::Reserved0xEE,
        0xEF => AttError::Reserved0xEF,
        0xF0 => AttError::Reserved0xF0,
        0xF1 => AttError::Reserved0xF1,
        0xF2 => AttError::Reserved0xF2,
        0xF3 => AttError::Reserved0xF3,
        0xF4 => AttError::Reserved0xF4,
        0xF5 => AttError::Reserved0xF5,
        0xF6 => AttError::Reserved0xF6,
        0xF7 => AttError::Reserved0xF7,
        0xF8 => AttError::Reserved0xF8,
        0xF9 => AttError::Reserved0xF9,
        0xFA => AttError::Reserved0xFA,
        0xFB => AttError::Reserved0xFB,
        0xFC => AttError::WriteRequestRejected,
        0xFD => AttError::ClientCharacteristicConfigurationDescriptorImproperlyConfigured,
        0xFE => AttError::ProcedureAlreadyInProgress,
        _ => AttError::OutOfRange,
    }
}

impl From<u8> for AttError {
    fn from(value: u8) -> (r: AttError) {
        match value {
            0x00 => AttError::Reserved0x00,
            0x01 => AttError::InvalidHandle,
            0x02 => AttError::ReadNotPermitted,
            0x03 => AttError::WriteNotPermitted,
            0x04 => AttError::InvalidPdu,
            0x05 => AttError::InsufficientAuthentication,
            0x06 => AttError::RequestNotSupported,
            0x07 => AttError::InvalidOffset,
            0x08 => AttError::InsufficientAuthorization,
            0x09 => AttError::PrepareQueueFull,
            0x0A => AttError::AttributeNotFound,
            0x0B => AttError::AttributeNotLong,
            0x0C => AttError::InsufficientEncryptionKeySize,
            0x0D => AttError::InvalidAttributeValueLength,
            0x0E => AttError::UnlikelyError,
            0x0F => AttError::InsufficientEncryption,
            0x10 => AttError::UnsupportedGroupType,
            0x11 => AttError::InsufficientResources,
            0x12 => AttError::Reserved0x12,
            0x13 => AttError::Reserved0x13,
            0x14 => AttError::Reserved0x14,
            0x15 => AttError::Reserved0x15,
            0x16 => AttError::Reserved0x16,
            0x17 => AttError::Reserved0x17,
            0x18 => AttError::Reserved0x18,
            0x19 => AttError::Reserved0x19,
            0x1A => AttError::Reserved0x1A,
            0x1B => AttError::Reserved0x1B,
            0x1C => AttError::Reserved0x1C,
            0x1D => AttError::Reserved0x1D,
            0x1E => AttError::Reserved0x1E,
            0x1F => AttError::Reserved0x1F,
            0x20 => AttError::Reserved0x20,
            0x21 => AttError::Reserved0x21,
            0x22 => AttError::Reserved0x22,
            0x23 => AttError::Reserved0x23,
            0x24 => AttError::Reserved0x24,
            0x25 => AttError::Reserved0x25,
            0x26 => AttError::Reserved0x26,
            0x27 => AttError::Reserved0x27,
            0x28 => AttError::Reserved0x28,
            0x29 => AttError::Reserved0x29,
            0x2A => AttError::Reserved0x2A,
            0x2B => AttError::Reserved0x2B,
            0x2C => AttError::Reserved0x2C,
            0x2D => AttError::Reserved0x2D,
            0x2E => AttError::Reserved0x2E,
            0x2F => AttError::Reserved0x2F,
            0x30 => AttError::Reserved0x30,
            0x31 => AttError::Reserved0x31,
            0x32 => AttError::Reserved0x32,
            0x33 => AttError::Reserved0x33,
            0x34 => AttError::Reserved0x34,
            0x35 => AttError::Reserved0x35,
            0x36 => AttError::Reserved0x36,
            0x37 => AttError::Reserved0x37,
            0x38 => AttError::Reserved0x38,
            0x39 => AttError::Reserved0x39,
            0x3A => AttError::Reserved0x3A,
            0x3B => AttError::Reserved0x3B,
            0x3C => AttError::Reserved0x3C,
            0x3D => AttError::Reserved0x3D,
            0x3E => AttError::Reserved0x3E,
            0x3F => AttError::Reserved0x3F,
            0x40 => AttError::Reserved0x40,
            0x41 => AttError::Reserved0x41,
            0x42 => AttError::Reserved0x42,
            0x43 => AttError::Reserved0x43,
            0x44 => AttError::Reserved0x44,
            0x45 => AttError::Reserved0x45,
            0x46 => AttError::Reserved0x46,
            0x47 => AttError::Reserved0x47,
            0x48 => AttError::Reserved0x48,
            0x49 => AttError::Reserved0x49,
            0x4A => AttError::Reserved0x4A,
            0x4B => AttError::Reserved0x4B,
            0x4C => AttError::Reserved0x4C,
            0x4D => AttError::Reserved0x4D,
            0x4E => AttError::Reserved0x4E,
            0x4F => AttError::Reserved0x4F,
            0x50 => AttError::Reserved0x50,
            0x51 => AttError::Reserved0x51,
            0x52 => AttError::Reserved0x52,
            0x53 => AttError::Reserved0x53,
            0x54 => AttError::Reserved0x54,
            0x55 => AttError::Reserved0x55,
            0x56 => AttError::Reserved0x56,
            0x57 => AttError::Reserved0x57,
            0x58 => AttError::Reserved0x58,
            0x59 => AttError::Reserved0x59,
            0x5A => AttError::Reserved0x5A,
            0x5B => AttError::Reserved0x5B,
            0x5C => AttError::Reserved0x5C,
            0x5D => AttError::Reserved0x5D,
            0x5E => AttError::Reserved0x5E,
            0x5F => AttError::Reserved0x5F,
            0x60 => AttError::Reserved0x60,
            0x61 => AttError::Reserved0x61,
            0x62 => AttError::Reserved0x62,
            0x63 => AttError::Reserved0x63,
            0x64 => AttError::Reserved0x64,
            0x65 => AttError::Reserved0x65,
            0x66 => AttError::Reserved0x66,
            0x67 => AttError::Reserved0x67,
            0x68 => AttError::Reserved0x68,
            0x69 => AttError::Reserved0x69,
            0x6A => AttError::Reserved0x6A,
            0x6B => AttError::Reserved0x6B,
            0x6C => AttError::Reserved0x6C,
            0x6D => AttError::Reserved0x6D,
            0x6E => AttError::Reserved0x6E,
            0x6F => AttError::Reserved0x6F,
            0x70 => AttError::Reserved0x70,
            0x71 => AttError::Reserved0x71,
            0x72 => AttError::Reserved0x72,
            0x73 => AttError::Reserved0x73,
            0x74 => AttError::Reserved0x74,
            0x75 => AttError::Reserved0x75,
            0x76 => AttError::Reserved0x76,
            0x77 => AttError::Reserved0x77,
            0x78 => AttError::Reserved0x78,
            0x79 => AttError::Reserved0x79,
            0x7A => AttError::Reserved0x7A,
            0x7B => AttError::Reserved0x7B,
            0x7C => AttError::Reserved0x7C,
            0x7D => AttError::Reserved0x7D,
            0x7E => AttError::Reserved0x7E,
            0x7F => AttError::Reserved0x7F,
            0x80 => AttError::ApplicationError0x80,
            0x81 => AttError::ApplicationError0x81,
            0x82 => AttError::ApplicationError0x82,
            0x83 => AttError::ApplicationError0x83,
            0x84 => AttError::ApplicationError0x84,
            0x85 => AttError::ApplicationError0x85,
            0x86 => AttError::ApplicationError0x86,
            0x87 => AttError::ApplicationError0x87,
            0x88 => AttError::ApplicationError0x88,
            0x89 => AttError::ApplicationError0x89,
            0x8A => AttError::ApplicationError0x8A,
            0x8B => AttError::ApplicationError0x8B,
            0x8C => AttError::ApplicationError0x8C,
            0x8D => AttError::ApplicationError0x8D,
            0x8E => AttError::ApplicationError0x8E,
            0x8F => AttError::ApplicationError0x8F,
            0x90 => AttError::ApplicationError0x90,
            0x91 => AttError::ApplicationError0x91,
            0x92 => AttError::ApplicationError0x92,
            0x93 => AttError::ApplicationError0x93,
            0x94 => AttError::ApplicationError0x94,
            0x95 => AttError::ApplicationError0x95,
            0x96 => AttError::ApplicationError0x96,
            0x97 => AttError::ApplicationError0x97,
            0x98 => AttError::ApplicationError0x98,
            0x99 => AttError::ApplicationError0x99,
            0x9A => AttError::ApplicationError0x9A,
            0x9B => AttError::ApplicationError0x9B,
            0x9C => AttError::ApplicationError0x9C,
            0x9D => AttError::ApplicationError0x9D,
            0x9E => AttError::ApplicationError0x9E,
            0x9F => AttError::ApplicationError0x9F,
            0xA0 => AttError::Reserveda0h,
            0xA1 => AttError::Reserved0xA1,
            0xA2 => AttError::Reserved0xA2,
            0xA3 => AttError::Reserved0xA3,
            0xA4 => AttError::Reserved0xA4,
            0xA5 => AttError::Reserved0xA5,
            0xA6 => AttError::Reserved0xA6,
            0xA7 => AttError::Reserved0xA7,
            0xA8 => AttError::Reserved0xA8,
            0xA9 => AttError::Reserved0xA9,
            0xAA => AttError::Reserved0xAA,
            0xAB => AttError::Reserved0xAB,
            0xAC => AttError::Reserved0xAC,
            0xAD => AttError::Reserved0xAD,
            0xAE => AttError::Reserved0xAE,
            0xAF => AttError::Reserved0xAF,
            0xB0 => AttError::Reserved0xB0,
            0xB1 => AttError::Reserved0xB1,
            0xB2 => AttError::Reserved0xB2,
            0xB3 => AttError::Reserved0xB3,
            0xB4 => AttError::Reserved0xB4,
            0xB5 => AttError::Reserved0xB5,
            0xB6 => AttError::Reserved0xB6,
            0xB7 => AttError::Reserved0xB7,
            0xB8 => AttError::Reserved0xB8,
            0xB9 => AttError::Reserved0xB9,
            0xBA => AttError::Reserved0xBA,
            0xBB => AttError::Reserved0xBB,
            0xBC => AttError::Reserved0xBC,
            0xBD => AttError::Reserved0xBD,
            0xBE => AttError::Reserved0xBE,
            0xBF => AttError::Reserved0xBF,
            0xC0 => AttError::Reserved0xC0,
            0xC1 => AttError::Reserved0xC1,
            0xC2 => AttError::Reserved0xC2,
            0xC3 => AttError::Reserved0xC3,
            0xC4 => AttError::Reserved0xC4,
            0xC5 => AttError::Reserved0xC5,
            0xC6 => AttError::Reserved0xC6,
            0xC7 => AttError::Reserved0xC7,
            0xC8 => AttError::Reserved0xC8,
            0xC9 => AttError::Reserved0xC9,
            0xCA => AttError::Reserved0xCA,
            0xCB => AttError::Reserved0xCB,
            0xCC => AttError::Reserved0xCC,
            0xCD => AttError::Reserved0xCD,
            0xCE => AttError::Reserved0xCE,
            0xCF => AttError::Reserved0xCF,
            0xD0 => AttError::Reserved0xD0,
            0xD1 => AttError::Reserved0xD1,
            0xD2 => AttError::Reserved0xD2,
            0xD3 => AttError::Reserved0xD3,
            0xD4 => AttError::Reserved0xD4,
            0xD5 => AttError::Reserved0xD5,
            0xD6 => AttError::Reserved0xD6,
            0xD7 => AttError::Reserved0xD7,
            0xD8 => AttError::Reserved0xD8,
            0xD9 => AttError::Reserved0xD9,
            0xDA => AttError::Reserved0xDA,
            0xDB => AttError::Reserved0xDB,
            0xDC => AttError::Reserved0xDC,
            0xDD => AttError::Reserved0xDD,
            0xDE => AttError::Reserved0xDE,
            0xDF => AttError::Reserved0xDF,
            0xE0 => AttError::Reserved0xE0,
            0xE1 => AttError::Reserved0xE1,
            0xE2 => AttError::Reserved0xE2,
            0xE3 => AttError::Reserved0xE3,
            0xE4 => AttError::Reserved0xE4,
            0xE5 => AttError::Reserved0xE5,
            0xE6 => AttError::Reserved0xE6,
            0xE7 => AttError::Reserved0xE7,
            0xE8 => AttError::Reserved0xE8,
            0xE9 => AttError::Reserved0xE9,
            0xEA => AttError::Reserved0xEA,
            0xEB => AttError::Reserved0xEB,
            0xEC => AttError::Reserved0xEC,
            0xED => AttError::Reserved0xED,
            0xEE => AttError::Reserved0xEE,
            0xEF => AttError::Reserved0xEF,
            0xF0 => AttError::Reserved0xF0,
            0xF1 => AttError::Reserved0xF1,
            0xF2 => AttError::Reserved0xF2,
            0xF3 => AttError::Reserved0xF3,
            0xF4 => AttError::Reserved0xF4,
            0xF5 => AttError::Reserved0xF5,
            0xF6 => AttError::Reserved0xF6,
            0xF7 => AttError::Reserved0xF7,
            0xF8 => AttError::Reserved0xF8,
            0xF9 => AttError::Reserved0xF9,
            0xFA => AttError::Reserved0xFA,
            0xFB => AttError::Reserved0xFB,
            0xFC => AttError::WriteRequestRejected,
            0xFD => AttError::ClientCharacteristicConfigurationDescriptorImproperlyConfigured,
            0xFE => AttError::ProcedureAlreadyInProgress,
            _ => AttError::OutOfRange,
        }
    }
}

impl vstd::std_specs::convert::FromSpecImpl<u8> for AttError {
    open spec fn obeys_from_spec() -> bool {
        true
    }

    open spec fn from_spec(value: u8) -> AttError {
        att_error_of(value)
    }
}

/// The requests and other PDUs of the Attribute Protocol, by opcode.
#[derive(Clone, Copy, Debug, PartialEq, Eq, Structural)]
pub enum AttRequest {
    /// ATT PDU 0x01: error response.
    ErrorResponse,
    /// ATT PDU 0x02: exchange MTU request.
    ExchangeMtuRequest,
    /// ATT PDU 0x03: exchange MTU response.
    ExchangeMtuResponse,
    /// ATT PDU 0x04: find information request.
    FindInformationRequest,
    /// ATT PDU 0x05: find information response.
    FindInformationResponse,
    /// ATT PDU 0x06: find by type value request.
    FindByTypeValueRequest,
    /// ATT PDU 0x07: find by type value response.
    FindByTypeValueResponse,
    /// ATT PDU 0x08: read by type request.
    ReadByTypeRequest,
    /// ATT PDU 0x09: read by type response.
    ReadByTypeResponse,
    /// ATT PDU 0x0A: read request.
    ReadRequest,
    /// ATT PDU 0x0B: read response.
    ReadResponse,
    /// ATT PDU 0x0C: read blob request.
    ReadBlobRequest,
    /// ATT PDU 0x0D: read blob response.
    ReadBlobResponse,
    /// ATT PDU 0x0E: read multiple request.
    ReadMultipleRequest,
    /// ATT PDU 0x0F: read multiple response.
    ReadMultipleResponse,
    /// ATT PDU 0x10: read by group type request.
    ReadByGroupTypeRequest,
    /// ATT PDU 0x11: read by group type response.
    ReadByGroupTypeResponse,
    /// ATT PDU 0x12: write request.
    WriteRequest,
    /// ATT PDU 0x13: write response.
    WriteResponse,
    /// ATT PDU 0x52: write command.
    WriteCommand,
    /// ATT PDU 0xD2: signed write command.
    SignedWriteCommand,
    /// ATT PDU 0x16: prepare write request.
    PrepareWriteRequest,
    /// ATT PDU 0x17: prepare write response.
    PrepareWriteResponse,
    /// ATT PDU 0x18: execute write request.
    ExecuteWriteRequest,
    /// ATT PDU 0x19: execute write response.
    ExecuteWriteResponse,
    /// ATT PDU 0x1B: handle value notification.
    HandleValueNotification,
    /// ATT PDU 0x1D: handle value indication.
    HandleValueIndication,
    /// ATT PDU 0x1E: handle value confirmation.
    HandleValueConfirmation,
}

/// The PDU that an opcode names, or the error that carries it.
pub open spec fn att_request_of(value: u8) -> Result<AttRequest, Error> {
    match value {
        0x01 => Ok(AttRequest::ErrorResponse),
        0x02 => Ok(AttRequest::ExchangeMtuRequest),
        0x03 => Ok(AttRequest::ExchangeMtuResponse),
        0x04 => Ok(AttRequest::FindInformationRequest),
        0x05 => Ok(AttRequest::FindInformationResponse),
        0x06 => Ok(AttRequest::FindByTypeValueRequest),
        0x07 => Ok(AttRequest::FindByTypeValueResponse),
        0x08 => Ok(AttRequest::ReadByTypeRequest),
        0x09 => Ok(AttRequest::ReadByTypeResponse),
        0x0A => Ok(AttRequest::ReadRequest),
        0x0B => Ok(AttRequest::ReadResponse),
        0x0C => Ok(AttRequest::ReadBlobRequest),
        0x0D => Ok(AttRequest::ReadBlobResponse),
        0x0E => Ok(AttRequest::ReadMultipleRequest),
        0x0F => Ok(AttRequest::ReadMultipleResponse),
        0x10 => Ok(AttRequest::ReadByGroupTypeRequest),
        0x11 => Ok(AttRequest::ReadByGroupTypeResponse),
        0x12 => Ok(AttRequest::WriteRequest),
        0x13 => Ok(AttRequest::WriteResponse),
        0x52 => Ok(AttRequest::WriteCommand),
        0xD2 => Ok(AttRequest::SignedWriteCommand),
        0x16 => Ok(AttRequest::PrepareWriteRequest),
        0x17 => Ok(AttRequest::PrepareWriteResponse),
        0x18 => Ok(AttRequest::ExecuteWriteRequest),
        0x19 => Ok(AttRequest::ExecuteWriteResponse),
        0x1B => Ok(AttRequest::HandleValueNotification),
        0x1D => Ok(AttRequest::HandleValueIndication),
        0x1E => Ok(AttRequest::HandleValueConfirmation),
        _ => Err(Error::BadAttRequestOpcode(value)),
    }
}

impl TryFrom<u8> for AttRequest {
    type Error = Error;

    /// Maps the request opcode byte of the AttErrorResponse event.
    fn try_from(value: u8) -> (r: Result<AttRequest, Error>) {
        match value {
            0x01 => Ok(AttRequest::ErrorResponse),
            0x02 => Ok(AttRequest::ExchangeMtuRequest),
            0x03 => Ok(AttRequest::ExchangeMtuResponse),
            0x04 => Ok(AttRequest::FindInformationRequest),
            0x05 => Ok(AttRequest::FindInformationResponse),
            0x06 => Ok(AttRequest::FindByTypeValueRequest),
            0x07 => Ok(AttRequest::FindByTypeValueResponse),
            0x08 => Ok(AttRequest::ReadByTypeRequest),
            0x09 => Ok(AttRequest::ReadByTypeResponse),
            0x0A => Ok(AttRequest::ReadRequest),
            0x0B => Ok(AttRequest::ReadResponse),
            0x0C => Ok(AttRequest::ReadBlobRequest),
            0x0D => Ok(AttRequest::ReadBlobResponse),
            0x0E => Ok(AttRequest::ReadMultipleRequest),
            0x0F => Ok(AttRequest::ReadMultipleResponse),
            0x10 => Ok(AttRequest::ReadByGroupTypeRequest),
            0x11 => Ok(AttRequest::ReadByGroupTypeResponse),
            0x12 => Ok(AttRequest::WriteRequest),
            0x13 => Ok(AttRequest::WriteResponse),
            0x52 => Ok(AttRequest::WriteCommand),
            0xD2 => Ok(AttRequest::SignedWriteCommand),
            0x16 => Ok(AttRequest::PrepareWriteRequest),
            0x17 => Ok(AttRequest::PrepareWriteResponse),
            0x18 => Ok(AttRequest::ExecuteWriteRequest),
            0x19 => Ok(AttRequest::ExecuteWriteResponse),
            0x1B => Ok(AttRequest::HandleValueNotification),
            0x1D => Ok(AttRequest::HandleValueIndication),
            0x1E => Ok(AttRequest::HandleValueConfirmation),
            _ => Err(Error::BadAttRequestOpcode(value)),
        }
    }
}

impl vstd::std_specs::convert::TryFromSpecImpl<u8> for AttRequest {
    open spec fn obeys_try_from_spec() -> bool {
        true
    }

    open spec fn try_from_spec(value: u8) -> Result<AttRequest, Error> {
        att_request_of(value)
    }
}

/// Every byte is an ATT error code, and decoding gives back the code's own byte: no two bytes
/// give the same error, and none is rejected.
pub proof fn lemma_att_error_round_trip(value: u8)
    ensures
        att_error_code(att_error_of(value)) == value,
{
}

} // verus!
