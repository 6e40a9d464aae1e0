//! GATT and ATT events, with the fixed-capacity containers of their repeated records.

use vstd::prelude::*;
use vstd::slice::slice_subrange;
use crate::att_codes::{att_error_of, att_request_of, AttError, AttRequest};
use crate::error::{vendor_error, Error, EventError};
use crate::types::{AttributeHandle, ConnectionHandle, GroupEndHandle};
use crate::wire::{
    copy_array, copy_padded, exact_len_error, first_error, le16, min_len_error, read_u16,
    require_len, require_len_at_least, zero_padded,
};

verus! {

/// If record `k` of records `s` bytes long fits in `n` bytes, so does its end.
proof fn lemma_record_in_bounds(k: int, s: int, n: int)
    requires
        0 <= k,
        0 < s,
        0 <= n,
        k < n / s,
    ensures
        k * s + s <= n,
{
    let q = n / s;
    vstd::arithmetic::div_mod::lemma_fundamental_div_mod(n, s);
    assert(k * s + s <= n) by (nonlinear_arith)
        requires
            k + 1 <= q,
            n == s * q + n % s,
            0 <= n % s,
            0 < s,
    ;
}

// ---------------------------------------------------------------------------------------------
// Attribute modified

/// The capacity of an attribute value in an event: 255 bytes less the 7 fixed ones.
pub const MAX_ATTRIBUTE_LEN: usize = 248;

/// A client modified an attribute of this server.
#[derive(Clone, Copy, Debug)]
pub struct GattAttributeModified {
    /// The connection handle which modified the attribute.
    pub conn_handle: ConnectionHandle,
    /// Handle of the modified attribute.
    pub attr_handle: AttributeHandle,
    /// Offset of the reported value inside the attribute; 0 on the Standard firmware, which does
    /// not report it.
    pub offset: usize,
    /// More events follow with the rest of the value; false on the Standard firmware.
    pub continued: bool,
    data_len: usize,
    data_buf: [u8; MAX_ATTRIBUTE_LEN],
}

impl GattAttributeModified {
    #[verifier::type_invariant]
    spec fn inv(self) -> bool {
        self.data_len <= MAX_ATTRIBUTE_LEN
    }

    /// The new value of the attribute, from `offset` on.
    pub closed spec fn spec_data(&self) -> Seq<u8> {
        self.data_buf@.subrange(0, self.data_len as int)
    }

    /// Returns the new value of the attribute.
    pub fn data(&self) -> (r: &[u8])
        ensures
            r@ == self.spec_data(),
    {
        proof {
            use_type_invariant(self);
        }
        slice_subrange(self.data_buf.as_slice(), 0, self.data_len)
    }
}

/// The error of a GattAttributeModified buffer, if any. Extended firmware: at least 9 bytes,
/// exactly 9 plus the data length at byte 6. Standard firmware: 7 and 7 plus that length.
pub open spec fn attribute_modified_error(b: Seq<u8>, extended: bool) -> Option<EventError> {
    let fixed: usize = if extended {
        9
    } else {
        7
    };
    first_error(min_len_error(b, fixed), exact_len_error(b, (fixed + b[6]) as usize))
}

/// The fields of a valid GattAttributeModified buffer. On Extended firmware bytes 7 and 8 hold
/// the offset in their low 15 bits and the continuation flag in the high bit.
pub closed spec fn attribute_modified_fields(
    b: Seq<u8>,
    extended: bool,
    x: GattAttributeModified,
) -> bool {
    &&& x.conn_handle.0 as int == le16(b, 2)
    &&& x.attr_handle.0 as int == le16(b, 4)
    &&& if extended {
        &&& x.offset as int == le16(b, 7) % 0x8000
        &&& x.continued == (le16(b, 7) >= 0x8000)
        &&& x.spec_data() == b.subrange(9, b.len() as int)
    } else {
        &&& x.offset == 0
        &&& !x.continued
        &&& x.spec_data() == b.subrange(7, b.len() as int)
    }
}

/// Decodes the GattAttributeModified event in the layout of the given firmware.
pub(crate) fn to_gatt_attribute_modified(buffer: &[u8], extended: bool) -> (r: Result<
    GattAttributeModified,
    EventError,
>)
    requires
        buffer@.len() <= 255,
    ensures
        match r {
            Ok(x) => attribute_modified_error(buffer@, extended) is None
                && attribute_modified_fields(buffer@, extended, x),
            Err(e) => attribute_modified_error(buffer@, extended) == Some(e),
        },
{
    let fixed: usize = if extended {
        9
    } else {
        7
    };
    require_len_at_least(buffer, fixed)?;
    let data_len = buffer[6] as usize;
    require_len(buffer, fixed + data_len)?;

    let (offset, continued) = if extended {
        let offset_field = read_u16(buffer, 7);
        ((offset_field % 0x8000) as usize, offset_field >= 0x8000)
    } else {
        (0, false)
    };
    let x = GattAttributeModified {
        conn_handle: ConnectionHandle(read_u16(buffer, 2)),
        attr_handle: AttributeHandle(read_u16(buffer, 4)),
        offset,
        continued,
        data_len,
        data_buf: copy_padded(buffer, fixed, data_len),
    };
    assert(x.spec_data() =~= buffer@.subrange(fixed as int, buffer@.len() as int));
    Ok(x)
}

// ---------------------------------------------------------------------------------------------
// Exchange MTU

/// The answer to an Exchange MTU request.
#[derive(Clone, Copy, Debug)]
pub struct AttExchangeMtuResponse {
    /// The connection handle related to the response.
    pub conn_handle: ConnectionHandle,
    /// Attribute server receive MTU size.
    pub server_rx_mtu: usize,
}

/// The error of an AttExchangeMtuResponse buffer, if any: it is 7 bytes long.
pub open spec fn exchange_mtu_error(b: Seq<u8>) -> Option<EventError> {
    exact_len_error(b, 7)
}

/// The fields of a valid AttExchangeMtuResponse buffer: the MTU is at bytes 5 and 6.
pub open spec fn exchange_mtu_fields(b: Seq<u8>, x: AttExchangeMtuResponse) -> bool {
    x.conn_handle.0 as int == le16(b, 2) && x.server_rx_mtu as int == le16(b, 5)
}

/// Decodes the AttExchangeMtuResponse event.
pub(crate) fn to_att_exchange_mtu_resp(buffer: &[u8]) -> (r: Result<
    AttExchangeMtuResponse,
    EventError,
>)
    ensures
        match r {
            Ok(x) => exchange_mtu_error(buffer@) is None && exchange_mtu_fields(buffer@, x),
            Err(e) => exchange_mtu_error(buffer@) == Some(e),
        },
{
    require_len(buffer, 7)?;
    Ok(
        AttExchangeMtuResponse {
            conn_handle: ConnectionHandle(read_u16(buffer, 2)),
            server_rx_mtu: read_u16(buffer, 5) as usize,
        },
    )
}

// ---------------------------------------------------------------------------------------------
// Find information

/// The most handle-UUID pairs with 16-bit UUIDs that one event holds: (255 - 6) / 4.
pub const MAX_FORMAT16_PAIR_COUNT: usize = 62;

/// The most handle-UUID pairs with 128-bit UUIDs that one event holds: (255 - 6) / 18.
pub const MAX_FORMAT128_PAIR_COUNT: usize = 13;

/// A 16-bit UUID.
#[derive(Clone, Copy, Debug, PartialEq, Eq, Structural)]
pub struct Uuid16(pub u16);

/// A 128-bit UUID, in the byte order of the wire.
#[derive(Clone, Copy, Debug, PartialEq, Eq)]
pub struct Uuid128(pub [u8; 16]);

/// An attribute handle with its 16-bit UUID.
#[derive(Clone, Copy, Debug, PartialEq, Eq, Structural)]
pub struct HandleUuid16Pair {
    /// Attribute handle.
    pub handle: AttributeHandle,
    /// Attribute UUID.
    pub uuid: Uuid16,
}

/// An attribute handle with its 128-bit UUID.
#[derive(Clone, Copy, Debug, PartialEq, Eq)]
pub struct HandleUuid128Pair {
    /// Attribute handle.
    pub handle: AttributeHandle,
    /// Attribute UUID.
    pub uuid: Uuid128,
}

/// Pair `i` of data made of 4-byte handle-UUID pairs.
pub open spec fn uuid16_pair_at(d: Seq<u8>, i: int, p: HandleUuid16Pair) -> bool {
    p.handle.0 as int == le16(d, 4 * i) && p.uuid.0 as int == le16(d, 4 * i + 2)
}

/// Pair `i` of data made of 18-byte handle-UUID pairs.
pub open spec fn uuid128_pair_at(d: Seq<u8>, i: int, p: HandleUuid128Pair) -> bool {
    p.handle.0 as int == le16(d, 18 * i) && p.uuid.0@ == d.subrange(18 * i + 2, 18 * i + 18)
}

/// `s` holds the 4-byte pairs of `d`, all of them and in order.
pub open spec fn uuid16_pairs_of(d: Seq<u8>, s: Seq<HandleUuid16Pair>) -> bool {
    &&& s.len() == d.len() / 4
    &&& forall|i: int| 0 <= i < s.len() ==> #[trigger] uuid16_pair_at(d, i, s[i])
}

/// `s` holds the 18-byte pairs of `d`, all of them and in order.
pub open spec fn uuid128_pairs_of(d: Seq<u8>, s: Seq<HandleUuid128Pair>) -> bool {
    &&& s.len() == d.len() / 18
    &&& forall|i: int| 0 <= i < s.len() ==> #[trigger] uuid128_pair_at(d, i, s[i])
}

#[derive(Clone, Copy, Debug)]
enum HandleUuidPairs {
    Format16(usize, [HandleUuid16Pair; MAX_FORMAT16_PAIR_COUNT]),
    Format128(usize, [HandleUuid128Pair; MAX_FORMAT128_PAIR_COUNT]),
}

/// The answer to a Find Information request: handle-UUID pairs, all of one UUID width.
#[derive(Clone, Copy, Debug)]
pub struct AttFindInformationResponse {
    /// The connection handle related to the response.
    pub conn_handle: ConnectionHandle,
    handle_uuid_pairs: HandleUuidPairs,
}

impl AttFindInformationResponse {
    #[verifier::type_invariant]
    spec fn inv(self) -> bool {
        match self.handle_uuid_pairs {
            HandleUuidPairs::Format16(count, _) => count <= MAX_FORMAT16_PAIR_COUNT,
            HandleUuidPairs::Format128(count, _) => count <= MAX_FORMAT128_PAIR_COUNT,
        }
    }

    /// The pairs carry 16-bit UUIDs.
    pub closed spec fn is_format16(&self) -> bool {
        self.handle_uuid_pairs is Format16
    }

    /// The pairs, where they carry 16-bit UUIDs.
    pub closed spec fn pairs16(&self) -> Seq<HandleUuid16Pair> {
        match self.handle_uuid_pairs {
            HandleUuidPairs::Format16(count, data) => data@.subrange(0, count as int),
            HandleUuidPairs::Format128(_, _) => Seq::empty(),
        }
    }

    /// The pairs, where they carry 128-bit UUIDs.
    pub closed spec fn pairs128(&self) -> Seq<HandleUuid128Pair> {
        match self.handle_uuid_pairs {
            HandleUuidPairs::Format16(_, _) => Seq::empty(),
            HandleUuidPairs::Format128(count, data) => data@.subrange(0, count as int),
        }
    }

    /// An iterator over the pairs, in the order of the event.
    pub fn handle_uuid_pair_iter<'a>(&'a self) -> (r: HandleUuidPairIterator<'a>)
        ensures
            match r {
                HandleUuidPairIterator::Format16(it) => self.is_format16() && it.items()
                    == self.pairs16() && it.position() == 0,
                HandleUuidPairIterator::Format128(it) => !self.is_format16() && it.items()
                    == self.pairs128() && it.position() == 0,
            },
    {
        proof {
            use_type_invariant(self);
        }
        match &self.handle_uuid_pairs {
            HandleUuidPairs::Format16(count, data) => {
                HandleUuidPairIterator::Format16(
                    HandleUuid16PairIterator { data, count: *count, next_index: 0 },
                )
            },
            HandleUuidPairs::Format128(count, data) => {
                HandleUuidPairIterator::Format128(
                    HandleUuid128PairIterator { data, count: *count, next_index: 0 },
                )
            },
        }
    }
}

/// An iterator over the handle-UUID pairs of a find information response, of either width.
pub enum HandleUuidPairIterator<'a> {
    /// The pairs carry 16-bit UUIDs.
    Format16(HandleUuid16PairIterator<'a>),
    /// The pairs carry 128-bit UUIDs.
    Format128(HandleUuid128PairIterator<'a>),
}

/// An iterator over handle-UUID pairs with 16-bit UUIDs.
pub struct HandleUuid16PairIterator<'a> {
    data: &'a [HandleUuid16Pair; MAX_FORMAT16_PAIR_COUNT],
    count: usize,
    next_index: usize,
}

impl<'a> HandleUuid16PairIterator<'a> {
    #[verifier::type_invariant]
    spec fn inv(self) -> bool {
        self.count <= MAX_FORMAT16_PAIR_COUNT
    }

    /// All the pairs that the iterator walks, in order.
    pub closed spec fn items(&self) -> Seq<HandleUuid16Pair> {
        self.data@.subrange(0, self.count as int)
    }

    /// How many pairs the iterator has handed out.
    pub closed spec fn position(&self) -> int {
        self.next_index as int
    }

    /// The next pair, or `None` once all have been handed out.
    pub fn next(&mut self) -> (r: Option<HandleUuid16Pair>)
        ensures
            final(self).items() == old(self).items(),
            old(self).position() < old(self).items().len() ==> r == Some(
                old(self).items()[old(self).position()],
            ) && final(self).position() == old(self).position() + 1,
            old(self).position() >= old(self).items().len() ==> r is None && final(self).position()
                == old(self).position(),
    {
        proof {
            use_type_invariant(&*self);
        }
        if self.next_index >= self.count {
            return None;
        }
        let index = self.next_index;
        self.next_index = index + 1;
        Some(self.data[index])
    }
}

/// An iterator over handle-UUID pairs with 128-bit UUIDs.
pub struct HandleUuid128PairIterator<'a> {
    data: &'a [HandleUuid128Pair; MAX_FORMAT128_PAIR_COUNT],
    count: usize,
    next_index: usize,
}

impl<'a> HandleUuid128PairIterator<'a> {
    #[verifier::type_invariant]
    spec fn inv(self) -> bool {
        self.count <= MAX_FORMAT128_PAIR_COUNT
    }

    /// All the pairs that the iterator walks, in order.
    pub closed spec fn items(&self) -> Seq<HandleUuid128Pair> {
        self.data@.subrange(0, self.count as int)
    }

    /// How many pairs the iterator has handed out.
    pub closed spec fn position(&self) -> int {
        self.next_index as int
    }

    /// The next pair, or `None` once all have been handed out.
    pub fn next(&mut self) -> (r: Option<HandleUuid128Pair>)
        ensures
            final(self).items() == old(self).items(),
            old(self).position() < old(self).items().len() ==> r == Some(
                old(self).items()[old(self).position()],
            ) && final(self).position() == old(self).position() + 1,
            old(self).position() >= old(self).items().len() ==> r is None && final(self).position()
                == old(self).position(),
    {
        proof {
            use_type_invariant(&*self);
        }
        if self.next_index >= self.count {
            return None;
        }
        let index = self.next_index;
        self.next_index = index + 1;
        Some(self.data[index])
    }
}

fn to_handle_uuid16_pairs(d: &[u8]) -> (r: Result<HandleUuidPairs, Error>)
    requires
        d@.len() <= 249,
    ensures
        match r {
            Ok(HandleUuidPairs::Format16(count, data)) => d@.len() % 4 == 0 && count
                <= MAX_FORMAT16_PAIR_COUNT && uuid16_pairs_of(d@, data@.subrange(0, count as int)),
            Ok(_) => false,
            Err(e) => d@.len() % 4 != 0 && e == Error::AttFindInformationResponsePartialPair16,
        },
{
    if d.len() % 4 != 0 {
        return Err(Error::AttFindInformationResponsePartialPair16);
    }
    let count = d.len() / 4;
    let mut pairs = [HandleUuid16Pair { handle: AttributeHandle(0), uuid: Uuid16(0) };
        MAX_FORMAT16_PAIR_COUNT];
    let mut i: usize = 0;
    while i < count
        invariant
            count == d@.len() / 4,
            d@.len() % 4 == 0,
            count <= MAX_FORMAT16_PAIR_COUNT,
            i <= count,
            pairs@.len() == MAX_FORMAT16_PAIR_COUNT,
            forall|j: int| 0 <= j < i ==> #[trigger] uuid16_pair_at(d@, j, pairs@[j]),
        decreases count - i,
    {
        let index = 4 * i;
        pairs[i] = HandleUuid16Pair {
            handle: AttributeHandle(read_u16(d, index)),
            uuid: Uuid16(read_u16(d, index + 2)),
        };
        i += 1;
    }
    assert(uuid16_pairs_of(d@, pairs@.subrange(0, count as int))) by {
        assert forall|j: int| 0 <= j < count implies #[trigger] uuid16_pair_at(
            d@,
            j,
            pairs@.subrange(0, count as int)[j],
        ) by {
            assert(uuid16_pair_at(d@, j, pairs@[j]));
        }
    }
    Ok(HandleUuidPairs::Format16(count, pairs))
}

fn to_handle_uuid128_pairs(d: &[u8]) -> (r: Result<HandleUuidPairs, Error>)
    requires
        d@.len() <= 249,
    ensures
        match r {
            Ok(HandleUuidPairs::Format128(count, data)) => d@.len() % 18 == 0 && count
                <= MAX_FORMAT128_PAIR_COUNT && uuid128_pairs_of(
                d@,
                data@.subrange(0, count as int),
            ),
            Ok(_) => false,
            Err(e) => d@.len() % 18 != 0 && e == Error::AttFindInformationResponsePartialPair128,
        },
{
    if d.len() % 18 != 0 {
        return Err(Error::AttFindInformationResponsePartialPair128);
    }
    let count = d.len() / 18;
    let mut pairs = [HandleUuid128Pair { handle: AttributeHandle(0), uuid: Uuid128([0u8; 16]) };
        MAX_FORMAT128_PAIR_COUNT];
    let mut i: usize = 0;
    while i < count
        invariant
            count == d@.len() / 18,
            d@.len() % 18 == 0,
            d@.len() <= 249,
            count <= MAX_FORMAT128_PAIR_COUNT,
            i <= count,
            pairs@.len() == MAX_FORMAT128_PAIR_COUNT,
            forall|j: int| 0 <= j < i ==> #[trigger] uuid128_pair_at(d@, j, pairs@[j]),
        decreases count - i,
    {
        let index = 18 * i;
        pairs[i] = HandleUuid128Pair {
            handle: AttributeHandle(read_u16(d, index)),
            uuid: Uuid128(copy_array(d, index + 2)),
        };
        i += 1;
    }
    assert(uuid128_pairs_of(d@, pairs@.subrange(0, count as int))) by {
        assert forall|j: int| 0 <= j < count implies #[trigger] uuid128_pair_at(
            d@,
            j,
            pairs@.subrange(0, count as int)[j],
        ) by {
            assert(uuid128_pair_at(d@, j, pairs@[j]));
        }
    }
    Ok(HandleUuidPairs::Format128(count, pairs))
}

/// The error of an AttFindInformationResponse buffer, if any: at least 6 bytes, exactly 5 plus
/// the data length at byte 4, and a format at byte 5 of 1 (pairs of 4 bytes) or 2 (pairs of 18
/// bytes) that divides the rest of the buffer into whole pairs.
pub open spec fn find_information_error(b: Seq<u8>) -> Option<EventError> {
    first_error(
        min_len_error(b, 6),
        first_error(
            exact_len_error(b, (5 + b[4]) as usize),
            if b[5] == 1 {
                if (b.len() - 6) % 4 != 0 {
                    Some(EventError::Vendor(Error::AttFindInformationResponsePartialPair16))
                } else {
                    None
                }
            } else if b[5] == 2 {
                if (b.len() - 6) % 18 != 0 {
                    Some(EventError::Vendor(Error::AttFindInformationResponsePartialPair128))
                } else {
                    None
                }
            } else {
                Some(EventError::Vendor(Error::BadAttFindInformationResponseFormat(b[5])))
            },
        ),
    )
}

/// The fields of a valid AttFindInformationResponse buffer: the pairs from byte 6 on, in the
/// width that byte 5 names.
pub closed spec fn find_information_fields(b: Seq<u8>, x: AttFindInformationResponse) -> bool {
    &&& x.conn_handle.0 as int == le16(b, 2)
    &&& if b[5] == 1 {
        x.is_format16() && uuid16_pairs_of(b.subrange(6, b.len() as int), x.pairs16())
    } else {
        !x.is_format16() && uuid128_pairs_of(b.subrange(6, b.len() as int), x.pairs128())
    }
}

/// Decodes the AttFindInformationResponse event.
pub(crate) fn to_att_find_information_response(buffer: &[u8]) -> (r: Result<
    AttFindInformationResponse,
    EventError,
>)
    requires
        buffer@.len() <= 255,
    ensures
        match r {
            Ok(x) => find_information_error(buffer@) is None && find_information_fields(
                buffer@,
                x,
            ),
            Err(e) => find_information_error(buffer@) == Some(e),
        },
{
    require_len_at_least(buffer, 6)?;
    let data_len = buffer[4] as usize;
    require_len(buffer, 5 + data_len)?;

    let conn_handle = ConnectionHandle(read_u16(buffer, 2));
    let pairs = slice_subrange(buffer, 6, buffer.len());
    let handle_uuid_pairs = match buffer[5] {
        1 => match to_handle_uuid16_pairs(pairs) {
            Ok(p) => p,
            Err(e) => return Err(EventError::Vendor(e)),
        },
        2 => match to_handle_uuid128_pairs(pairs) {
            Ok(p) => p,
            Err(e) => return Err(EventError::Vendor(e)),
        },
        format => {
            return Err(EventError::Vendor(Error::BadAttFindInformationResponseFormat(format)));
        },
    };
    Ok(AttFindInformationResponse { conn_handle, handle_uuid_pairs })
}

// ---------------------------------------------------------------------------------------------
// Find by type value

/// The most handle pairs that one event holds: (255 - 5) / 4.
pub const MAX_HANDLE_INFO_PAIR_COUNT: usize = 62;

/// An attribute handle with the handle that ends its group.
#[derive(Clone, Copy, Debug, PartialEq, Eq, Structural)]
pub struct HandleInfoPair {
    /// Attribute handle.
    pub attribute: AttributeHandle,
    /// Group end handle.
    pub group_end: GroupEndHandle,
}

/// Pair `i` of data made of 4-byte handle pairs.
pub open spec fn handle_info_pair_at(d: Seq<u8>, i: int, p: HandleInfoPair) -> bool {
    p.attribute.0 as int == le16(d, 4 * i) && p.group_end.0 as int == le16(d, 4 * i + 2)
}

/// `s` holds the 4-byte handle pairs of `d`, all of them and in order.
pub open spec fn handle_info_pairs_of(d: Seq<u8>, s: Seq<HandleInfoPair>) -> bool {
    &&& s.len() == d.len() / 4
    &&& forall|i: int| 0 <= i < s.len() ==> #[trigger] handle_info_pair_at(d, i, s[i])
}

/// The answer to a Find By Type Value request: a list of handle pairs.
#[derive(Clone, Copy, Debug)]
pub struct AttFindByTypeValueResponse {
    /// The connection handle related to the response.
    pub conn_handle: ConnectionHandle,
    handle_pair_count: usize,
    handles: [HandleInfoPair; MAX_HANDLE_INFO_PAIR_COUNT],
}

impl AttFindByTypeValueResponse {
    #[verifier::type_invariant]
    spec fn inv(self) -> bool {
        self.handle_pair_count <= MAX_HANDLE_INFO_PAIR_COUNT
    }

    /// The handle pairs of the response, in order.
    pub closed spec fn handle_pairs(&self) -> Seq<HandleInfoPair> {
        self.handles@.subrange(0, self.handle_pair_count as int)
    }

    /// An iterator over the handle pairs, in the order of the event.
    pub fn handle_pairs_iter<'a>(&'a self) -> (r: HandleInfoPairIterator<'a>)
        ensures
            r.items() == self.handle_pairs(),
            r.position() == 0,
    {
        HandleInfoPairIterator { event: self, next_index: 0 }
    }
}

/// An iterator over the handle pairs of a find by type value response.
pub struct HandleInfoPairIterator<'a> {
    event: &'a AttFindByTypeValueResponse,
    next_index: usize,
}

impl<'a> HandleInfoPairIterator<'a> {
    /// All the pairs that the iterator walks, in order.
    pub closed spec fn items(&self) -> Seq<HandleInfoPair> {
        self.event.handle_pairs()
    }

    /// How many pairs the iterator has handed out.
    pub closed spec fn position(&self) -> int {
        self.next_index as int
    }

    /// The next pair, or `None` once all have been handed out.
    pub fn next(&mut self) -> (r: Option<HandleInfoPair>)
        ensures
            final(self).items() == old(self).items(),
            old(self).position() < old(self).items().len() ==> r == Some(
                old(self).items()[old(self).position()],
            ) && final(self).position() == old(self).position() + 1,
            old(self).position() >= old(self).items().len() ==> r is None && final(self).position()
                == old(self).position(),
    {
        proof {
            use_type_invariant(self.event);
        }
        if self.next_index >= self.event.handle_pair_count {
            return None;
        }
        let index = self.next_index;
        self.next_index = index + 1;
        Some(self.event.handles[index])
    }
}

/// The error of an AttFindByTypeValueResponse buffer, if any: at least 5 bytes, exactly 5 plus
/// the data length at byte 4, and whole 4-byte pairs from byte 5 on.
pub open spec fn find_by_type_value_error(b: Seq<u8>) -> Option<EventError> {
    first_error(
        min_len_error(b, 5),
        first_error(
            exact_len_error(b, (5 + b[4]) as usize),
            if (b.len() - 5) % 4 != 0 {
                Some(EventError::Vendor(Error::AttFindByTypeValuePartial))
            } else {
                None
            },
        ),
    )
}

/// The fields of a valid AttFindByTypeValueResponse buffer: the pairs from byte 5 on.
pub closed spec fn find_by_type_value_fields(b: Seq<u8>, x: AttFindByTypeValueResponse) -> bool {
    &&& x.conn_handle.0 as int == le16(b, 2)
    &&& handle_info_pairs_of(b.subrange(5, b.len() as int), x.handle_pairs())
}

/// Decodes the AttFindByTypeValueResponse event.
pub(crate) fn to_att_find_by_value_type_response(buffer: &[u8]) -> (r: Result<
    AttFindByTypeValueResponse,
    EventError,
>)
    requires
        buffer@.len() <= 255,
    ensures
        match r {
            Ok(x) => find_by_type_value_error(buffer@) is None && find_by_type_value_fields(
                buffer@,
                x,
            ),
            Err(e) => find_by_type_value_error(buffer@) == Some(e),
        },
{
    require_len_at_least(buffer, 5)?;
    let data_len = buffer[4] as usize;
    require_len(buffer, 5 + data_len)?;

    let d = slice_subrange(buffer, 5, buffer.len());
    if d.len() % 4 != 0 {
        return Err(EventError::Vendor(Error::AttFindByTypeValuePartial));
    }
    let count = d.len() / 4;
    let mut pairs = [HandleInfoPair { attribute: AttributeHandle(0), group_end: GroupEndHandle(0) };
        MAX_HANDLE_INFO_PAIR_COUNT];
    let mut i: usize = 0;
    while i < count
        invariant
            count == d@.len() / 4,
            d@.len() % 4 == 0,
            count <= MAX_HANDLE_INFO_PAIR_COUNT,
            i <= count,
            pairs@.len() == MAX_HANDLE_INFO_PAIR_COUNT,
            forall|j: int| 0 <= j < i ==> #[trigger] handle_info_pair_at(d@, j, pairs@[j]),
        decreases count - i,
    {
        let index = 4 * i;
        pairs[i] = HandleInfoPair {
            attribute: AttributeHandle(read_u16(d, index)),
            group_end: GroupEndHandle(read_u16(d, index + 2)),
        };
        i += 1;
    }
    let x = AttFindByTypeValueResponse {
        conn_handle: ConnectionHandle(read_u16(buffer, 2)),
        handle_pair_count: count,
        handles: pairs,
    };
    assert(handle_info_pairs_of(d@, x.handle_pairs())) by {
        assert forall|j: int| 0 <= j < count implies #[trigger] handle_info_pair_at(
            d@,
            j,
            x.handle_pairs()[j],
        ) by {
            assert(handle_info_pair_at(d@, j, pairs@[j]));
        }
    }
    Ok(x)
}

// ---------------------------------------------------------------------------------------------
// Read by type

/// The capacity of the handle-value data: 255 bytes less the 6 fixed ones.
pub const MAX_HANDLE_VALUE_PAIR_BUF_LEN: usize = 249;

/// The handle-value records of `d`, each `s` bytes long: a 2-byte handle, then the value. A
/// partial record at the end is not one.
pub open spec fn handle_value_records(d: Seq<u8>, s: int) -> Seq<(AttributeHandle, Seq<u8>)> {
    Seq::new(
        (d.len() as int / s) as nat,
        |i: int| (AttributeHandle(le16(d, i * s) as u16), d.subrange(i * s + 2, i * s + s)),
    )
}

/// The answer to a Read By Type request: handle-value pairs whose values all have one length.
#[derive(Clone, Copy, Debug)]
pub struct AttReadByTypeResponse {
    /// The connection handle related to the response.
    pub conn_handle: ConnectionHandle,
    data_len: usize,
    value_len: usize,
    handle_value_pair_buf: [u8; MAX_HANDLE_VALUE_PAIR_BUF_LEN],
}

impl AttReadByTypeResponse {
    #[verifier::type_invariant]
    spec fn inv(self) -> bool {
        self.data_len <= MAX_HANDLE_VALUE_PAIR_BUF_LEN && self.value_len <= 253
    }

    /// The handle-value pairs of the response, in order, each as its handle and its value.
    pub closed spec fn handle_value_pairs(&self) -> Seq<(AttributeHandle, Seq<u8>)> {
        handle_value_records(
            self.handle_value_pair_buf@.subrange(0, self.data_len as int),
            self.value_len + 2,
        )
    }

    /// An iterator over the handle-value pairs, in the order of the event.
    pub fn handle_value_pair_iter<'a>(&'a self) -> (r: HandleValuePairIterator<'a>)
        ensures
            r.items() == self.handle_value_pairs(),
            r.position() == 0,
    {
        HandleValuePairIterator { event: self, index: 0 }
    }
}

/// One handle-value pair of a read by type response.
pub struct HandleValuePair<'a> {
    /// Attribute handle.
    pub handle: AttributeHandle,
    /// Attribute value, for the caller to interpret.
    pub value: &'a [u8],
}

/// An iterator over the handle-value pairs of a read by type response.
pub struct HandleValuePairIterator<'a> {
    event: &'a AttReadByTypeResponse,
    index: usize,
}

impl<'a> HandleValuePairIterator<'a> {
    /// All the pairs that the iterator walks, in order.
    pub closed spec fn items(&self) -> Seq<(AttributeHandle, Seq<u8>)> {
        self.event.handle_value_pairs()
    }

    /// How many pairs the iterator has handed out.
    pub closed spec fn position(&self) -> int {
        self.index as int
    }

    /// The next pair, or `None` once all have been handed out.
    pub fn next(&mut self) -> (r: Option<HandleValuePair<'a>>)
        ensures
            final(self).items() == old(self).items(),
            old(self).position() < old(self).items().len() ==> final(self).position() == old(
                self,
            ).position() + 1 && (r matches Some(p) && (p.handle, p.value@) == old(
                self,
            ).items()[old(self).position()]),
            old(self).position() >= old(self).items().len() ==> r is None && final(self).position()
                == old(self).position(),
    {
        let event: &'a AttReadByTypeResponse = self.event;
        proof {
            use_type_invariant(event);
        }
        let stride = event.value_len + 2;
        if self.index >= event.data_len / stride {
            return None;
        }
        let k = self.index;
        proof {
            lemma_record_in_bounds(k as int, stride as int, event.data_len as int);
        }
        let offset = k * stride;
        self.index = k + 1;
        let buf = event.handle_value_pair_buf.as_slice();
        let ghost d = event.handle_value_pair_buf@.subrange(0, event.data_len as int);
        let handle = AttributeHandle(read_u16(buf, offset));
        let value = slice_subrange(buf, offset + 2, offset + stride);
        assert(value@ =~= d.subrange(k * stride + 2, k * stride + stride));
        Some(HandleValuePair { handle, value })
    }
}

/// The error of an AttReadByTypeResponse buffer, if any: at least 6 bytes, exactly 5 plus the
/// data length at byte 4, then records whose length byte 5 gives, which holds at least the 2-byte
/// handle and divides the rest of the buffer into whole records.
pub open spec fn read_by_type_error(b: Seq<u8>) -> Option<EventError> {
    first_error(
        min_len_error(b, 6),
        first_error(
            exact_len_error(b, (5 + b[4]) as usize),
            if b[5] < 2 || (b.len() - 6) % (b[5] as int) != 0 {
                Some(EventError::Vendor(Error::AttReadByTypeResponsePartial))
            } else {
                None
            },
        ),
    )
}

/// The fields of a valid AttReadByTypeResponse buffer: the records from byte 6 on.
pub closed spec fn read_by_type_fields(b: Seq<u8>, x: AttReadByTypeResponse) -> bool {
    &&& x.conn_handle.0 as int == le16(b, 2)
    &&& x.handle_value_pairs() == handle_value_records(b.subrange(6, b.len() as int), b[5] as int)
}

/// Decodes the AttReadByTypeResponse event.
pub(crate) fn to_att_read_by_type_response(buffer: &[u8]) -> (r: Result<
    AttReadByTypeResponse,
    EventError,
>)
    requires
        buffer@.len() <= 255,
    ensures
        match r {
            Ok(x) => read_by_type_error(buffer@) is None && read_by_type_fields(buffer@, x),
            Err(e) => read_by_type_error(buffer@) == Some(e),
        },
{
    require_len_at_least(buffer, 6)?;
    let data_len = buffer[4] as usize;
    require_len(buffer, 5 + data_len)?;

    let handle_value_pair_len = buffer[5] as usize;
    let pair_data_len = buffer.len() - 6;
    if handle_value_pair_len < 2 || pair_data_len % handle_value_pair_len != 0 {
        return Err(EventError::Vendor(Error::AttReadByTypeResponsePartial));
    }
    let x = AttReadByTypeResponse {
        conn_handle: ConnectionHandle(read_u16(buffer, 2)),
        data_len: pair_data_len,
        value_len: handle_value_pair_len - 2,
        handle_value_pair_buf: copy_padded(buffer, 6, pair_data_len),
    };
    assert(x.handle_value_pair_buf@.subrange(0, pair_data_len as int) =~= buffer@.subrange(
        6,
        buffer@.len() as int,
    ));
    Ok(x)
}

// ---------------------------------------------------------------------------------------------
// Read by group type

/// The capacity of the attribute data: 255 bytes less the 6 fixed ones.
pub const MAX_ATTRIBUTE_DATA_BUF_LEN: usize = 249;

/// The attribute data records of `d`, each `s` bytes long: a 2-byte attribute handle, a 2-byte
/// group end handle, then the value. A partial record at the end is not one.
pub open spec fn attribute_data_records(d: Seq<u8>, s: int) -> Seq<
    (AttributeHandle, GroupEndHandle, Seq<u8>),
> {
    Seq::new(
        (d.len() as int / s) as nat,
        |i: int|
            (
                AttributeHandle(le16(d, i * s) as u16),
                GroupEndHandle(le16(d, i * s + 2) as u16),
                d.subrange(i * s + 4, i * s + s),
            ),
    )
}

/// The answer to a Read By Group Type request: attribute data groups of one length.
#[derive(Clone, Copy, Debug)]
pub struct AttReadByGroupTypeResponse {
    /// The connection handle related to the response.
    pub conn_handle: ConnectionHandle,
    data_len: usize,
    attribute_group_len: usize,
    attribute_data_buf: [u8; MAX_ATTRIBUTE_DATA_BUF_LEN],
}

impl AttReadByGroupTypeResponse {
    #[verifier::type_invariant]
    spec fn inv(self) -> bool {
        &&& self.data_len <= MAX_ATTRIBUTE_DATA_BUF_LEN
        &&& 4 <= self.attribute_group_len <= 255
    }

    /// The attribute data of the response, in order, each as its attribute handle, its group
    /// end handle and its value.
    pub closed spec fn attribute_data(&self) -> Seq<(AttributeHandle, GroupEndHandle, Seq<u8>)> {
        attribute_data_records(
            self.attribute_data_buf@.subrange(0, self.data_len as int),
            self.attribute_group_len as int,
        )
    }

    /// An iterator over the attribute data, in the order of the event.
    pub fn attribute_data_iter<'a>(&'a self) -> (r: AttributeDataIterator<'a>)
        ensures
            r.items() == self.attribute_data(),
            r.position() == 0,
    {
        AttributeDataIterator { event: self, next_index: 0 }
    }
}

/// An iterator over the attribute data of a read by group type response.
pub struct AttributeDataIterator<'a> {
    event: &'a AttReadByGroupTypeResponse,
    next_index: usize,
}

/// One attribute data group of a read by group type response.
pub struct AttributeData<'a> {
    /// Attribute handle.
    pub attribute_handle: AttributeHandle,
    /// Group end handle.
    pub group_end_handle: GroupEndHandle,
    /// Attribute value.
    pub value: &'a [u8],
}

impl<'a> AttributeDataIterator<'a> {
    /// All the groups that the iterator walks, in order.
    pub closed spec fn items(&self) -> Seq<(AttributeHandle, GroupEndHandle, Seq<u8>)> {
        self.event.attribute_data()
    }

    /// How many groups the iterator has handed out.
    pub closed spec fn position(&self) -> int {
        self.next_index as int
    }

    /// The next group, or `None` once all have been handed out.
    pub fn next(&mut self) -> (r: Option<AttributeData<'a>>)
        ensures
            final(self).items() == old(self).items(),
            old(self).position() < old(self).items().len() ==> final(self).position() == old(
                self,
            ).position() + 1 && (r matches Some(a) && (
                a.attribute_handle,
                a.group_end_handle,
                a.value@,
            ) == old(self).items()[old(self).position()]),
            old(self).position() >= old(self).items().len() ==> r is None && final(self).position()
                == old(self).position(),
    {
        let event: &'a AttReadByGroupTypeResponse = self.event;
        proof {
            use_type_invariant(event);
        }
        let stride = event.attribute_group_len;
        if self.next_index >= event.data_len / stride {
            return None;
        }
        let k = self.next_index;
        proof {
            lemma_record_in_bounds(k as int, stride as int, event.data_len as int);
        }
        let offset = k * stride;
        self.next_index = k + 1;
        let buf = event.attribute_data_buf.as_slice();
        let ghost d = event.attribute_data_buf@.subrange(0, event.data_len as int);
        let attribute_handle = AttributeHandle(read_u16(buf, offset));
        let group_end_handle = GroupEndHandle(read_u16(buf, offset + 2));
        let value = slice_subrange(buf, offset + 4, offset + stride);
        assert(value@ =~= d.subrange(k * stride + 4, k * stride + stride));
        Some(AttributeData { attribute_handle, group_end_handle, value })
    }
}

/// The error of an AttReadByGroupTypeResponse buffer, if any: at least 6 bytes, exactly 5 plus
/// the data length at byte 4, then groups whose length byte 5 gives, which holds at least the two
/// handles and divides the rest of the buffer into whole groups.
pub open spec fn read_by_group_type_error(b: Seq<u8>) -> Option<EventError> {
    first_error(
        min_len_error(b, 6),
        first_error(
            exact_len_error(b, (5 + b[4]) as usize),
            if b[5] < 4 || (b.len() - 6) % (b[5] as int) != 0 {
                Some(EventError::Vendor(Error::AttReadByGroupTypeResponsePartial))
            } else {
                None
            },
        ),
    )
}

/// The fields of a valid AttReadByGroupTypeResponse buffer: the groups from byte 6 on.
pub closed spec fn read_by_group_type_fields(b: Seq<u8>, x: AttReadByGroupTypeResponse) -> bool {
    &&& x.conn_handle.0 as int == le16(b, 2)
    &&& x.attribute_data() == attribute_data_records(b.subrange(6, b.len() as int), b[5] as int)
}

/// Decodes the AttReadByGroupTypeResponse event.
pub(crate) fn to_att_read_by_group_type_response(buffer: &[u8]) -> (r: Result<
    AttReadByGroupTypeResponse,
    EventError,
>)
    requires
        buffer@.len() <= 255,
    ensures
        match r {
            Ok(x) => read_by_group_type_error(buffer@) is None && read_by_group_type_fields(
                buffer@,
                x,
            ),
            Err(e) => read_by_group_type_error(buffer@) == Some(e),
        },
{
    require_len_at_least(buffer, 6)?;
    let data_len = buffer[4] as usize;
    require_len(buffer, 5 + data_len)?;

    // Byte 5, the group length, counts towards the data length; the groups follow it.
    let attribute_group_len = buffer[5] as usize;
    let group_data_len = data_len - 1;
    if attribute_group_len < 4 || group_data_len % attribute_group_len != 0 {
        return Err(EventError::Vendor(Error::AttReadByGroupTypeResponsePartial));
    }
    let x = AttReadByGroupTypeResponse {
        conn_handle: ConnectionHandle(read_u16(buffer, 2)),
        data_len: group_data_len,
        attribute_group_len,
        attribute_data_buf: copy_padded(buffer, 6, group_data_len),
    };
    assert(x.attribute_data_buf@.subrange(0, group_data_len as int) =~= buffer@.subrange(
        6,
        buffer@.len() as int,
    ));
    Ok(x)
}

// ---------------------------------------------------------------------------------------------
// Read response

/// The capacity of a read value: 255 bytes less the 5 fixed ones.
pub const MAX_READ_RESPONSE_LEN: usize = 250;

/// The answer to a Read, Read Blob or Read Multiple request: a value.
#[derive(Clone, Copy, Debug)]
pub struct AttReadResponse {
    /// The connection handle related to the response.
    pub conn_handle: ConnectionHandle,
    value_len: usize,
    value_buf: [u8; MAX_READ_RESPONSE_LEN],
}

impl AttReadResponse {
    #[verifier::type_invariant]
    spec fn inv(self) -> bool {
        self.value_len <= MAX_READ_RESPONSE_LEN
    }

    /// The value that was read.
    pub closed spec fn spec_value(&self) -> Seq<u8> {
        self.value_buf@.subrange(0, self.value_len as int)
    }

    /// Returns the value that was read.
    pub fn value(&self) -> (r: &[u8])
        ensures
            r@ == self.spec_value(),
    {
        proof {
            use_type_invariant(self);
        }
        slice_subrange(self.value_buf.as_slice(), 0, self.value_len)
    }
}

/// The error of a read response buffer, if any: at least 5 bytes, exactly 5 plus the data
/// length at byte 4.
pub open spec fn read_response_error(b: Seq<u8>) -> Option<EventError> {
    first_error(min_len_error(b, 5), exact_len_error(b, (5 + b[4]) as usize))
}

/// The fields of a valid read response buffer: the value from byte 5 on.
pub closed spec fn read_response_fields(b: Seq<u8>, x: AttReadResponse) -> bool {
    x.conn_handle.0 as int == le16(b, 2) && x.spec_value() == b.subrange(5, b.len() as int)
}

/// Decodes the AttReadResponse, AttReadBlobResponse and AttReadMultipleResponse events.
pub(crate) fn to_att_read_response(buffer: &[u8]) -> (r: Result<AttReadResponse, EventError>)
    requires
        buffer@.len() <= 255,
    ensures
        match r {
            Ok(x) => read_response_error(buffer@) is None && read_response_fields(buffer@, x),
            Err(e) => read_response_error(buffer@) == Some(e),
        },
{
    require_len_at_least(buffer, 5)?;
    let data_len = buffer[4] as usize;
    require_len(buffer, 5 + data_len)?;
    let x = AttReadResponse {
        conn_handle: ConnectionHandle(read_u16(buffer, 2)),
        value_len: data_len,
        value_buf: copy_padded(buffer, 5, data_len),
    };
    assert(x.spec_value() =~= buffer@.subrange(5, buffer@.len() as int));
    Ok(x)
}

// ---------------------------------------------------------------------------------------------
// Prepare write response

/// The capacity of a prepared value: 255 bytes less the 9 fixed ones.
pub const MAX_WRITE_RESPONSE_VALUE_LEN: usize = 246;

/// The answer to a Prepare Write request.
#[derive(Clone, Copy, Debug)]
pub struct AttPrepareWriteResponse {
    /// The connection handle related to the response.
    pub conn_handle: ConnectionHandle,
    /// The handle of the attribute to be written.
    pub attribute_handle: AttributeHandle,
    /// The offset of the first byte to be written.
    pub offset: usize,
    value_len: usize,
    value_buf: [u8; MAX_WRITE_RESPONSE_VALUE_LEN],
}

impl AttPrepareWriteResponse {
    #[verifier::type_invariant]
    spec fn inv(self) -> bool {
        self.value_len <= MAX_WRITE_RESPONSE_VALUE_LEN
    }

    /// The part of the value to be written.
    pub closed spec fn spec_value(&self) -> Seq<u8> {
        self.value_buf@.subrange(0, self.value_len as int)
    }

    /// Returns the part of the value to be written.
    pub fn value(&self) -> (r: &[u8])
        ensures
            r@ == self.spec_value(),
    {
        proof {
            use_type_invariant(self);
        }
        slice_subrange(self.value_buf.as_slice(), 0, self.value_len)
    }
}

/// The error of an AttPrepareWriteResponse buffer, if any: at least 9 bytes, exactly 5 plus the
/// data length at byte 4.
pub open spec fn prepare_write_error(b: Seq<u8>) -> Option<EventError> {
    first_error(min_len_error(b, 9), exact_len_error(b, (5 + b[4]) as usize))
}

/// The fields of a valid AttPrepareWriteResponse buffer: the attribute handle at bytes 5 and 6,
/// the offset at bytes 7 and 8, the value from byte 9 on.
pub closed spec fn prepare_write_fields(b: Seq<u8>, x: AttPrepareWriteResponse) -> bool {
    &&& x.conn_handle.0 as int == le16(b, 2)
    &&& x.attribute_handle.0 as int == le16(b, 5)
    &&& x.offset as int == le16(b, 7)
    &&& x.spec_value() == b.subrange(9, b.len() as int)
}

/// Decodes the AttPrepareWriteResponse event.
pub(crate) fn to_att_prepare_write_response(buffer: &[u8]) -> (r: Result<
    AttPrepareWriteResponse,
    EventError,
>)
    requires
        buffer@.len() <= 255,
    ensures
        match r {
            Ok(x) => prepare_write_error(buffer@) is None && prepare_write_fields(buffer@, x),
            Err(e) => prepare_write_error(buffer@) == Some(e),
        },
{
    require_len_at_least(buffer, 9)?;
    let data_len = buffer[4] as usize;
    require_len(buffer, 5 + data_len)?;
    let value_len = data_len - 4;
    let x = AttPrepareWriteResponse {
        conn_handle: ConnectionHandle(read_u16(buffer, 2)),
        attribute_handle: AttributeHandle(read_u16(buffer, 5)),
        offset: read_u16(buffer, 7) as usize,
        value_len,
        value_buf: copy_padded(buffer, 9, value_len),
    };
    assert(x.spec_value() =~= buffer@.subrange(9, buffer@.len() as int));
    Ok(x)
}

// ---------------------------------------------------------------------------------------------
// Attribute value

/// The capacity of an attribute value: 255 bytes less the 7 fixed ones.
pub const MAX_ATTRIBUTE_VALUE_LEN: usize = 248;

/// An attribute value: from an indication, a notification, a read by UUID, or a write that the
/// server must permit.
#[derive(Clone, Copy, Debug)]
pub struct AttributeValue {
    /// The connection handle related to the event.
    pub conn_handle: ConnectionHandle,
    /// The handle of the attribute.
    pub attribute_handle: AttributeHandle,
    value_len: usize,
    value_buf: [u8; MAX_ATTRIBUTE_VALUE_LEN],
}

impl AttributeValue {
    #[verifier::type_invariant]
    spec fn inv(self) -> bool {
        self.value_len <= MAX_ATTRIBUTE_VALUE_LEN
    }

    /// The value of the attribute.
    pub closed spec fn spec_value(&self) -> Seq<u8> {
        self.value_buf@.subrange(0, self.value_len as int)
    }

    /// Returns the value of the attribute.
    pub fn value(&self) -> (r: &[u8])
        ensures
            r@ == self.spec_value(),
    {
        proof {
            use_type_invariant(self);
        }
        slice_subrange(self.value_buf.as_slice(), 0, self.value_len)
    }
}

/// The error of an attribute value buffer, if any: at least 7 bytes, exactly 5 plus the data
/// length at byte 4.
pub open spec fn attribute_value_error(b: Seq<u8>) -> Option<EventError> {
    first_error(min_len_error(b, 7), exact_len_error(b, (5 + b[4]) as usize))
}

/// The fields of a valid attribute value buffer: the attribute handle at bytes 5 and 6, the
/// value from byte 7 on.
pub closed spec fn attribute_value_fields(b: Seq<u8>, x: AttributeValue) -> bool {
    &&& x.conn_handle.0 as int == le16(b, 2)
    &&& x.attribute_handle.0 as int == le16(b, 5)
    &&& x.spec_value() == b.subrange(7, b.len() as int)
}

/// Decodes the GattIndication, GattNotification and
/// GattDiscoverOrReadCharacteristicByUuidResponse events.
pub(crate) fn to_attribute_value(buffer: &[u8]) -> (r: Result<AttributeValue, EventError>)
    requires
        buffer@.len() <= 255,
    ensures
        match r {
            Ok(x) => attribute_value_error(buffer@) is None && attribute_value_fields(buffer@, x),
            Err(e) => attribute_value_error(buffer@) == Some(e),
        },
{
    require_len_at_least(buffer, 7)?;
    let data_len = buffer[4] as usize;
    require_len(buffer, 5 + data_len)?;
    let value_len = data_len - 2;
    let x = AttributeValue {
        conn_handle: ConnectionHandle(read_u16(buffer, 2)),
        attribute_handle: AttributeHandle(read_u16(buffer, 5)),
        value_len,
        value_buf: copy_padded(buffer, 7, value_len),
    };
    assert(x.spec_value() =~= buffer@.subrange(7, buffer@.len() as int));
    Ok(x)
}

/// The error of an AttWritePermitRequest buffer, if any: at least 7 bytes, exactly 7 plus the
/// data length at byte 6.
pub open spec fn write_permit_error(b: Seq<u8>) -> Option<EventError> {
    first_error(min_len_error(b, 7), exact_len_error(b, (7 + b[6]) as usize))
}

/// The fields of a valid AttWritePermitRequest buffer: the attribute handle at bytes 4 and 5,
/// the value from byte 7 on.
pub closed spec fn write_permit_fields(b: Seq<u8>, x: AttributeValue) -> bool {
    &&& x.conn_handle.0 as int == le16(b, 2)
    &&& x.attribute_handle.0 as int == le16(b, 4)
    &&& x.spec_value() == b.subrange(7, b.len() as int)
}

/// Decodes the AttWritePermitRequest event.
pub(crate) fn to_write_permit_request(buffer: &[u8]) -> (r: Result<AttributeValue, EventError>)
    requires
        buffer@.len() <= 255,
    ensures
        match r {
            Ok(x) => write_permit_error(buffer@) is None && write_permit_fields(buffer@, x),
            Err(e) => write_permit_error(buffer@) == Some(e),
        },
{
    require_len_at_least(buffer, 7)?;
    let data_len = buffer[6] as usize;
    require_len(buffer, 7 + data_len)?;
    let x = AttributeValue {
        conn_handle: ConnectionHandle(read_u16(buffer, 2)),
        attribute_handle: AttributeHandle(read_u16(buffer, 4)),
        value_len: data_len,
        value_buf: copy_padded(buffer, 7, data_len),
    };
    assert(x.spec_value() =~= buffer@.subrange(7, buffer@.len() as int));
    Ok(x)
}

// ---------------------------------------------------------------------------------------------
// Procedure complete and error response

/// The end of a GATT client procedure.
#[derive(Clone, Copy, Debug)]
pub struct GattProcedureComplete {
    /// The connection handle on which the procedure completed.
    pub conn_handle: ConnectionHandle,
    /// Whether it succeeded.
    pub status: GattProcedureStatus,
}

/// The status of a completed GATT procedure.
#[derive(Clone, Copy, Debug, PartialEq, Eq, Structural)]
pub enum GattProcedureStatus {
    /// Success.
    Success,
    /// Failure.
    Failed,
}

/// The GATT procedure status that a byte names, or the error that carries it.
pub open spec fn gatt_procedure_status_of(value: u8) -> Result<GattProcedureStatus, Error> {
    match value {
        0x00 => Ok(GattProcedureStatus::Success),
        0x41 => Ok(GattProcedureStatus::Failed),
        _ => Err(Error::BadGattProcedureStatus(value)),
    }
}

impl TryFrom<u8> for GattProcedureStatus {
    type Error = Error;

    /// Maps the status byte of the GattProcedureComplete event.
    fn try_from(value: u8) -> (r: Result<GattProcedureStatus, Error>) {
        match value {
            0x00 => Ok(GattProcedureStatus::Success),
            0x41 => Ok(GattProcedureStatus::Failed),
            _ => Err(Error::BadGattProcedureStatus(value)),
        }
    }
}

impl vstd::std_specs::convert::TryFromSpecImpl<u8> for GattProcedureStatus {
    open spec fn obeys_try_from_spec() -> bool {
        true
    }

    open spec fn try_from_spec(value: u8) -> Result<GattProcedureStatus, Error> {
        gatt_procedure_status_of(value)
    }
}

/// The error of a GattProcedureComplete buffer, if any: 6 bytes, the status at byte 5.
pub open spec fn gatt_procedure_complete_error(b: Seq<u8>) -> Option<EventError> {
    first_error(exact_len_error(b, 6), vendor_error(gatt_procedure_status_of(b[5])))
}

/// The fields of a valid GattProcedureComplete buffer.
pub open spec fn gatt_procedure_complete_fields(b: Seq<u8>, x: GattProcedureComplete) -> bool {
    &&& x.conn_handle.0 as int == le16(b, 2)
    &&& gatt_procedure_status_of(b[5]) == Ok::<GattProcedureStatus, Error>(x.status)
}

/// Decodes the GattProcedureComplete event.
pub(crate) fn to_gatt_procedure_complete(buffer: &[u8]) -> (r: Result<
    GattProcedureComplete,
    EventError,
>)
    ensures
        match r {
            Ok(x) => gatt_procedure_complete_error(buffer@) is None
                && gatt_procedure_complete_fields(buffer@, x),
            Err(e) => gatt_procedure_complete_error(buffer@) == Some(e),
        },
{
    require_len(buffer, 6)?;
    let conn_handle = ConnectionHandle(read_u16(buffer, 2));
    match GattProcedureStatus::try_from(buffer[5]) {
        Ok(status) => Ok(GattProcedureComplete { conn_handle, status }),
        Err(e) => Err(EventError::Vendor(e)),
    }
}

/// A server's answer that a request cannot be performed, with the reason.
#[derive(Clone, Copy, Debug)]
pub struct AttErrorResponse {
    /// The connection handle related to the event.
    pub conn_handle: ConnectionHandle,
    /// The request that caused the error.
    pub request: AttRequest,
    /// The attribute handle that caused the error.
    pub attribute_handle: AttributeHandle,
    /// Why the request failed.
    pub error: AttError,
}

/// The error of an AttErrorResponse buffer, if any: 9 bytes, the request opcode at byte 5.
pub open spec fn att_error_response_error(b: Seq<u8>) -> Option<EventError> {
    first_error(exact_len_error(b, 9), vendor_error(att_request_of(b[5])))
}

/// The fields of a valid AttErrorResponse buffer: the attribute handle at bytes 6 and 7, the
/// error code at byte 8.
pub open spec fn att_error_response_fields(b: Seq<u8>, x: AttErrorResponse) -> bool {
    &&& x.conn_handle.0 as int == le16(b, 2)
    &&& att_request_of(b[5]) == Ok::<AttRequest, Error>(x.request)
    &&& x.attribute_handle.0 as int == le16(b, 6)
    &&& x.error == att_error_of(b[8])
}

/// Decodes the AttErrorResponse event.
pub(crate) fn to_att_error_response(buffer: &[u8]) -> (r: Result<AttErrorResponse, EventError>)
    ensures
        match r {
            Ok(x) => att_error_response_error(buffer@) is None && att_error_response_fields(
                buffer@,
                x,
            ),
            Err(e) => att_error_response_error(buffer@) == Some(e),
        },
{
    require_len(buffer, 9)?;
    let request = match AttRequest::try_from(buffer[5]) {
        Ok(request) => request,
        Err(e) => return Err(EventError::Vendor(e)),
    };
    Ok(
        AttErrorResponse {
            conn_handle: ConnectionHandle(read_u16(buffer, 2)),
            request,
            attribute_handle: AttributeHandle(read_u16(buffer, 6)),
            error: AttError::from(buffer[8]),
        },
    )
}

/// A find information response of consistent length keeps exactly the whole pairs of its data,
/// in order: a partial pair at the end is rejected with the error of its format, and empty data
/// gives no pairs.
pub proof fn lemma_find_information_pairs(b: Seq<u8>, x: AttFindInformationResponse)
    requires
        b.len() >= 6,
        b.len() == 5 + b[4],
    ensures
        b[5] == 1 && (b.len() - 6) % 4 != 0 ==> find_information_error(b) == Some(
            EventError::Vendor(Error::AttFindInformationResponsePartialPair16),
        ),
        b[5] == 2 && (b.len() - 6) % 18 != 0 ==> find_information_error(b) == Some(
            EventError::Vendor(Error::AttFindInformationResponsePartialPair128),
        ),
        (b[5] == 1 || b[5] == 2) && b.len() == 6 ==> find_information_error(b) is None,
        find_information_error(b) is None && find_information_fields(b, x) ==> {
            &&& b[5] == 1 ==> x.is_format16() && x.pairs16().len() * 4 == b.len() - 6
                && forall|i: int|
                0 <= i < x.pairs16().len() ==> #[trigger] uuid16_pair_at(
                    b.subrange(6, b.len() as int),
                    i,
                    x.pairs16()[i],
                )
            &&& b[5] == 2 ==> !x.is_format16() && x.pairs128().len() * 18 == b.len() - 6
                && forall|i: int|
                0 <= i < x.pairs128().len() ==> #[trigger] uuid128_pair_at(
                    b.subrange(6, b.len() as int),
                    i,
                    x.pairs128()[i],
                )
        },
{
}

/// Decoding a find by type value response keeps every handle pair of its data, in order and no
/// more; these are what `handle_pairs_iter` walks.
pub proof fn lemma_find_by_type_value_pairs(b: Seq<u8>, x: AttFindByTypeValueResponse)
    requires
        find_by_type_value_error(b) is None,
        find_by_type_value_fields(b, x),
    ensures
        x.handle_pairs().len() * 4 == b.len() - 5,
        forall|i: int|
            0 <= i < x.handle_pairs().len() ==> #[trigger] handle_info_pair_at(
                b.subrange(5, b.len() as int),
                i,
                x.handle_pairs()[i],
            ),
{
}

/// Decoding a read by type response keeps every handle-value pair of its data, in order and no
/// more: the records fill the data exactly. These are what `handle_value_pair_iter` walks.
pub proof fn lemma_read_by_type_pairs(b: Seq<u8>, x: AttReadByTypeResponse)
    requires
        read_by_type_error(b) is None,
        read_by_type_fields(b, x),
    ensures
        x.handle_value_pairs() == handle_value_records(b.subrange(6, b.len() as int), b[5] as int),
        x.handle_value_pairs().len() * b[5] == b.len() - 6,
{
    let n = b.len() - 6;
    let s = b[5] as int;
    vstd::arithmetic::div_mod::lemma_fundamental_div_mod(n, s);
    assert(x.handle_value_pairs().len() == n / s);
    assert((n / s) * s == n) by (nonlinear_arith)
        requires
            n == s * (n / s) + n % s,
            n % s == 0,
    ;
}

/// Decoding a read by group type response keeps every attribute data group of its data, in
/// order and no more: the groups fill the data exactly. These are what `attribute_data_iter`
/// walks.
pub proof fn lemma_read_by_group_type_groups(b: Seq<u8>, x: AttReadByGroupTypeResponse)
    requires
        read_by_group_type_error(b) is None,
        read_by_group_type_fields(b, x),
    ensures
        x.attribute_data() == attribute_data_records(b.subrange(6, b.len() as int), b[5] as int),
        x.attribute_data().len() * b[5] == b.len() - 6,
{
    let n = b.len() - 6;
    let s = b[5] as int;
    vstd::arithmetic::div_mod::lemma_fundamental_div_mod(n, s);
    assert(x.attribute_data().len() == n / s);
    assert((n / s) * s == n) by (nonlinear_arith)
        requires
            n == s * (n / s) + n % s,
            n % s == 0,
    ;
}

} // verus!
