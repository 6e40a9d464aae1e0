use bluenrg::event::{
    AttError, AttRequest, AttributeHandle, BdAddr, BdAddrBuffer, BlueNRGEvent, BuildVariant,
    ConnectionHandle, Error, EventError, EventFlags, GapDeviceFoundEvent, GapPairingStatus,
    GapProcedure, GapProcedureStatus, GattProcedureStatus, GroupEndHandle,
    HandleUuidPairIterator, ResetReason, MAX_DEVICE_FOUND_DATA_LEN, MAX_NAME_LEN,
};

fn decode(buffer: &[u8]) -> Result<BlueNRGEvent, EventError> {
    BlueNRGEvent::new(buffer)
}

fn connection_update_request(
    interval_min: u16,
    interval_max: u16,
    slave_latency: u16,
    timeout_mult: u16,
) -> Vec<u8> {
    let mut buffer = vec![0x02, 0x08, 0x01, 0x02, 11, 0x07, 8, 0];
    for value in [interval_min, interval_max, slave_latency, timeout_mult] {
        buffer.extend_from_slice(&value.to_le_bytes());
    }
    buffer
}

#[test]
fn reset_reasons_each_named_once() {
    let expected = [
        ResetReason::Normal,
        ResetReason::UpdaterAci,
        ResetReason::UpdaterBadFlag,
        ResetReason::UpdaterPin,
        ResetReason::Watchdog,
        ResetReason::Lockup,
        ResetReason::Brownout,
        ResetReason::Crash,
        ResetReason::EccError,
    ];
    for (byte, reason) in (1u8..=9).zip(expected.iter()) {
        match decode(&[0x01, 0x00, byte]) {
            Ok(BlueNRGEvent::HalInitialized(r)) => assert_eq!(r, *reason),
            other => panic!("byte {} gave {:?}", byte, other),
        }
    }
}

#[test]
fn reset_reason_ten_is_unknown() {
    match decode(&[0x01, 0x00, 10]) {
        Err(EventError::Vendor(Error::UnknownResetReason(10))) => (),
        other => panic!("Did not get unknown reset reason: {:?}", other),
    }
}

#[test]
fn short_buffers_give_the_required_length() {
    assert!(matches!(decode(&[0x01]), Err(EventError::BadLength(1, 2))));
    assert!(matches!(decode(&[0x01, 0x00]), Err(EventError::BadLength(2, 3))));
    assert!(matches!(decode(&[0x06, 0x04, 0, 0, 0]), Err(EventError::BadLength(5, 12))));
    assert!(matches!(decode(&[0x02, 0x08, 0, 0, 11]), Err(EventError::BadLength(5, 16))));
    assert!(matches!(decode(&[0x04, 0x0C, 0, 0, 0]), Err(EventError::BadLength(5, 6))));
    assert!(matches!(decode(&[0x03, 0x00, 0, 0]), Err(EventError::BadLength(4, 40))));
}

#[test]
fn unknown_opcodes_are_reported() {
    assert!(matches!(
        decode(&[0x0B, 0x0C, 0, 0]),
        Err(EventError::Vendor(Error::UnknownEvent(0x0C0B)))
    ));
    assert!(matches!(
        decode(&[0x34, 0x12]),
        Err(EventError::Vendor(Error::UnknownEvent(0x1234)))
    ));
    assert!(matches!(
        BlueNRGEvent::decode(&[0x02, 0x00, 0, 0, 0, 0, 0, 0, 0, 0], BuildVariant::Standard),
        Err(EventError::Vendor(Error::UnknownEvent(0x0002)))
    ));
}

#[test]
fn events_lost_bad_flags_carry_all_bits() {
    let buffer = [0x02, 0x00, 0x01, 0, 0, 0, 0, 0, 0x02, 0x80];
    match decode(&buffer) {
        Err(EventError::Vendor(Error::BadEventFlags(bits))) => {
            assert_eq!(bits, 0x8002_0000_0000_0001)
        }
        other => panic!("Did not get BadEventFlags: {:?}", other),
    }
}

#[test]
fn events_lost_highest_flag_is_accepted() {
    let buffer = [0x02, 0x00, 0, 0, 0, 0, 0, 0, 0x01, 0x00];
    match decode(&buffer) {
        Ok(BlueNRGEvent::EventsLost(flags)) => {
            assert_eq!(flags.bits(), EventFlags::LINK_LAYER_LTK_REQUEST)
        }
        other => panic!("Did not get events lost: {:?}", other),
    }
    assert!(EventFlags::from_bits(1 << 49).is_none());
}

#[test]
fn connection_update_request_bounds() {
    match decode(&connection_update_request(6, 3200, 0, 3200)) {
        Ok(BlueNRGEvent::L2CapConnectionUpdateRequest(req)) => {
            assert_eq!(req.conn_handle, ConnectionHandle(0x0201));
            assert_eq!(req.identifier, 0x07);
            assert_eq!(req.interval_min, 6);
            assert_eq!(req.interval_max, 3200);
            assert_eq!(req.slave_latency, 0);
            assert_eq!(req.timeout_mult, 3200);
        }
        other => panic!("Did not get request: {:?}", other),
    }
    assert!(matches!(
        decode(&connection_update_request(5, 3200, 0, 3200)),
        Err(EventError::Vendor(Error::BadL2CapConnectionUpdateRequestInterval(5, 3200)))
    ));
    assert!(matches!(
        decode(&connection_update_request(100, 50, 0, 3200)),
        Err(EventError::Vendor(Error::BadL2CapConnectionUpdateRequestInterval(100, 50)))
    ));
    assert!(matches!(
        decode(&connection_update_request(6, 100, 0, 9)),
        Err(EventError::Vendor(Error::BadL2CapConnectionUpdateRequestTimeoutMult(9)))
    ));
}

#[test]
fn connection_update_request_latency_limit_is_exclusive() {
    // 4 * 1000 / 100 - 1 = 39.
    assert!(matches!(
        decode(&connection_update_request(6, 100, 39, 1000)),
        Err(EventError::Vendor(Error::BadL2CapConnectionUpdateRequestLatency(39, 39)))
    ));
    assert!(matches!(
        decode(&connection_update_request(6, 100, 38, 1000)),
        Ok(BlueNRGEvent::L2CapConnectionUpdateRequest(_))
    ));
    // 4 * 3200 / 6 - 1 = 2132, capped at 500.
    assert!(matches!(
        decode(&connection_update_request(6, 6, 500, 3200)),
        Err(EventError::Vendor(Error::BadL2CapConnectionUpdateRequestLatency(500, 500)))
    ));
    assert!(matches!(
        decode(&connection_update_request(6, 6, 499, 3200)),
        Ok(BlueNRGEvent::L2CapConnectionUpdateRequest(_))
    ));
    // 4 * 10 / 3200 = 0: no latency at all is allowed.
    assert!(matches!(
        decode(&connection_update_request(6, 3200, 0, 10)),
        Err(EventError::Vendor(Error::BadL2CapConnectionUpdateRequestLatency(0, 0)))
    ));
}

fn device_found(data: &[u8], rssi: u8) -> Vec<u8> {
    let mut buffer = vec![0x06, 0x04, 0x04, 0x01, 1, 2, 3, 4, 5, 6, data.len() as u8];
    buffer.extend_from_slice(data);
    buffer.push(rssi);
    buffer
}

#[test]
fn device_found_fields() {
    match decode(&device_found(&[0xAA, 0xBB, 0xCC], 0xF6)) {
        Ok(BlueNRGEvent::GapDeviceFound(found)) => {
            assert_eq!(found.event, GapDeviceFoundEvent::ScanResponse);
            assert_eq!(found.bdaddr, BdAddr::Random(BdAddrBuffer([1, 2, 3, 4, 5, 6])));
            assert_eq!(found.data_len, 3);
            assert_eq!(&found.data[..3], &[0xAA, 0xBB, 0xCC]);
            assert!(found.data[3..].iter().all(|b| *b == 0));
            assert_eq!(found.data.len(), MAX_DEVICE_FOUND_DATA_LEN);
            assert_eq!(found.rssi, -10);
        }
        other => panic!("Did not get device found: {:?}", other),
    }
}

#[test]
fn device_found_rssi_unavailable() {
    assert!(matches!(
        decode(&device_found(&[0xAA], 127)),
        Err(EventError::Vendor(Error::GapRssiUnavailable))
    ));
    let mut bad_type = device_found(&[], 127);
    bad_type[2] = 9;
    assert!(matches!(decode(&bad_type), Err(EventError::Vendor(Error::GapRssiUnavailable))));
}

#[test]
fn device_found_bad_event_and_address_type() {
    let mut buffer = device_found(&[], 0);
    buffer[2] = 5;
    assert!(matches!(decode(&buffer), Err(EventError::Vendor(Error::BadGapDeviceFoundEvent(5)))));
    let mut buffer = device_found(&[], 0);
    buffer[3] = 2;
    assert!(matches!(decode(&buffer), Err(EventError::Vendor(Error::BadGapBdAddrType(2)))));
    let mut buffer = device_found(&[1, 2], 0);
    buffer.pop();
    assert!(matches!(decode(&buffer), Err(EventError::BadLength(13, 14))));
}

#[test]
fn pairing_complete() {
    match decode(&[0x01, 0x04, 0x34, 0x12, 2]) {
        Ok(BlueNRGEvent::GapPairingComplete(p)) => {
            assert_eq!(p.conn_handle, ConnectionHandle(0x1234));
            assert_eq!(p.status, GapPairingStatus::Failed);
        }
        other => panic!("Did not get pairing complete: {:?}", other),
    }
    assert!(matches!(
        decode(&[0x01, 0x04, 0x34, 0x12, 3]),
        Err(EventError::Vendor(Error::BadGapPairingStatus(3)))
    ));
}

#[test]
fn connection_handle_events() {
    assert!(matches!(
        decode(&[0x02, 0x04, 0x34, 0x12]),
        Ok(BlueNRGEvent::GapPassKeyRequest(ConnectionHandle(0x1234)))
    ));
    assert!(matches!(
        decode(&[0x08, 0x04, 0x01, 0x00]),
        Ok(BlueNRGEvent::GapAddressNotResolved(ConnectionHandle(1)))
    ));
    assert!(matches!(decode(&[0x00, 0x04]), Ok(BlueNRGEvent::GapLimitedDiscoverable)));
    assert!(matches!(decode(&[0x0D, 0x0C, 0x02]), Err(EventError::BadLength(3, 4))));
}

#[test]
fn reconnection_address_on_standard_firmware() {
    let buffer = [0x08, 0x04, 1, 2, 3, 4, 5, 6];
    match BlueNRGEvent::decode(&buffer, BuildVariant::Standard) {
        Ok(BlueNRGEvent::GapReconnectionAddress(addr)) => {
            assert_eq!(addr, BdAddrBuffer([1, 2, 3, 4, 5, 6]))
        }
        other => panic!("Did not get reconnection address: {:?}", other),
    }
    assert!(matches!(
        BlueNRGEvent::decode(&buffer[..7], BuildVariant::Standard),
        Err(EventError::BadLength(7, 8))
    ));
}

#[test]
fn procedure_complete_name_discovery() {
    let buffer = [0x07, 0x04, 0x04, 0x00, b'a', b'b', b'c'];
    match decode(&buffer) {
        Ok(BlueNRGEvent::GapProcedureComplete(done)) => {
            assert_eq!(done.status, GapProcedureStatus::Success);
            match done.procedure {
                GapProcedure::NameDiscovery(len, name) => {
                    assert_eq!(len, 3);
                    assert_eq!(&name.0[..3], b"abc");
                    assert_eq!(name.0.len(), MAX_NAME_LEN);
                }
                other => panic!("Did not get name discovery: {:?}", other),
            }
        }
        other => panic!("Did not get procedure complete: {:?}", other),
    }
    assert!(matches!(decode(&buffer[..4]), Err(EventError::BadLength(4, 5))));
}

#[test]
fn procedure_complete_other_codes() {
    let buffer = [0x07, 0x04, 0x10, 0x41, 1, 2, 3, 4, 5, 6];
    match decode(&buffer) {
        Ok(BlueNRGEvent::GapProcedureComplete(done)) => {
            assert_eq!(done.status, GapProcedureStatus::Failed);
            assert_eq!(
                done.procedure,
                GapProcedure::GeneralConnectionEstablishment(BdAddrBuffer([1, 2, 3, 4, 5, 6]))
            );
        }
        other => panic!("Did not get procedure complete: {:?}", other),
    }
    assert!(matches!(
        decode(&[0x07, 0x04, 0x03, 0x00]),
        Err(EventError::Vendor(Error::BadGapProcedure(3)))
    ));
    assert!(matches!(
        decode(&[0x07, 0x04, 0x01, 0x06]),
        Err(EventError::Vendor(Error::BadGapProcedureStatus(6)))
    ));
    assert!(matches!(decode(&buffer[..9]), Err(EventError::BadLength(9, 10))));
}

#[test]
fn procedure_timeout_and_response_lengths() {
    assert!(matches!(
        decode(&[0x01, 0x08, 0x34, 0x12, 0]),
        Ok(BlueNRGEvent::L2CapProcedureTimeout(ConnectionHandle(0x1234)))
    ));
    assert!(matches!(
        decode(&[0x01, 0x08, 0x34, 0x12, 1]),
        Err(EventError::Vendor(Error::BadL2CapDataLength(1, 0)))
    ));
}

#[test]
fn attribute_modified_extended_offset() {
    let buffer = [0x01, 0x0C, 0x01, 0x00, 0x02, 0x00, 2, 0x05, 0x80, 0xAB, 0xCD];
    match decode(&buffer) {
        Ok(BlueNRGEvent::GattAttributeModified(m)) => {
            assert_eq!(m.conn_handle, ConnectionHandle(1));
            assert_eq!(m.attr_handle, AttributeHandle(2));
            assert_eq!(m.offset, 5);
            assert!(m.continued);
            assert_eq!(m.data(), &[0xAB, 0xCD]);
        }
        other => panic!("Did not get attribute modified: {:?}", other),
    }
}

#[test]
fn attribute_modified_standard_layout() {
    let buffer = [0x01, 0x0C, 0x01, 0x00, 0x02, 0x00, 2, 0xAB, 0xCD];
    match BlueNRGEvent::decode(&buffer, BuildVariant::Standard) {
        Ok(BlueNRGEvent::GattAttributeModified(m)) => {
            assert_eq!(m.offset, 0);
            assert!(!m.continued);
            assert_eq!(m.data(), &[0xAB, 0xCD]);
        }
        other => panic!("Did not get attribute modified: {:?}", other),
    }
    assert!(matches!(decode(&buffer), Err(EventError::BadLength(9, 11))));
}

#[test]
fn exchange_mtu_response() {
    match decode(&[0x03, 0x0C, 0x01, 0x00, 2, 0x17, 0x02]) {
        Ok(BlueNRGEvent::AttExchangeMtuResponse(r)) => {
            assert_eq!(r.conn_handle, ConnectionHandle(1));
            assert_eq!(r.server_rx_mtu, 0x0217);
        }
        other => panic!("Did not get MTU response: {:?}", other),
    }
}

#[test]
fn find_information_16_bit_pairs_in_order() {
    let buffer = [0x04, 0x0C, 0x01, 0x00, 9, 1, 0x01, 0x00, 0x00, 0x28, 0x02, 0x00, 0x03, 0x28];
    match decode(&buffer) {
        Ok(BlueNRGEvent::AttFindInformationResponse(r)) => {
            assert_eq!(r.conn_handle, ConnectionHandle(1));
            match r.handle_uuid_pair_iter() {
                HandleUuidPairIterator::Format16(mut it) => {
                    let first = it.next().unwrap();
                    assert_eq!((first.handle, first.uuid.0), (AttributeHandle(1), 0x2800));
                    let second = it.next().unwrap();
                    assert_eq!((second.handle, second.uuid.0), (AttributeHandle(2), 0x2803));
                    assert!(it.next().is_none());
                    assert!(it.next().is_none());
                }
                HandleUuidPairIterator::Format128(_) => panic!("wrong format"),
            }
        }
        other => panic!("Did not get find information response: {:?}", other),
    }
}

#[test]
fn find_information_128_bit_pair() {
    let mut buffer = vec![0x04, 0x0C, 0x01, 0x00, 19, 2, 0x05, 0x00];
    buffer.extend(0u8..16);
    match decode(&buffer) {
        Ok(BlueNRGEvent::AttFindInformationResponse(r)) => match r.handle_uuid_pair_iter() {
            HandleUuidPairIterator::Format128(mut it) => {
                let pair = it.next().unwrap();
                assert_eq!(pair.handle, AttributeHandle(5));
                let expected: Vec<u8> = (0u8..16).collect();
                assert_eq!(&pair.uuid.0[..], &expected[..]);
                assert!(it.next().is_none());
            }
            HandleUuidPairIterator::Format16(_) => panic!("wrong format"),
        },
        other => panic!("Did not get find information response: {:?}", other),
    }
}

#[test]
fn find_information_partial_pairs_and_empty() {
    assert!(matches!(
        decode(&[0x04, 0x0C, 0x01, 0x00, 4, 1, 1, 2, 3]),
        Err(EventError::Vendor(Error::AttFindInformationResponsePartialPair16))
    ));
    let mut buffer = vec![0x04, 0x0C, 0x01, 0x00, 5, 2];
    buffer.extend_from_slice(&[0; 4]);
    assert!(matches!(
        decode(&buffer),
        Err(EventError::Vendor(Error::AttFindInformationResponsePartialPair128))
    ));
    assert!(matches!(
        decode(&[0x04, 0x0C, 0x01, 0x00, 1, 3]),
        Err(EventError::Vendor(Error::BadAttFindInformationResponseFormat(3)))
    ));
    match decode(&[0x04, 0x0C, 0x01, 0x00, 1, 1]) {
        Ok(BlueNRGEvent::AttFindInformationResponse(r)) => match r.handle_uuid_pair_iter() {
            HandleUuidPairIterator::Format16(mut it) => assert!(it.next().is_none()),
            HandleUuidPairIterator::Format128(_) => panic!("wrong format"),
        },
        other => panic!("Did not get find information response: {:?}", other),
    }
}

#[test]
fn find_by_type_value_pairs_in_order() {
    let buffer = [0x05, 0x0C, 0x01, 0x00, 8, 0x01, 0x00, 0x05, 0x00, 0x06, 0x00, 0x09, 0x00];
    match decode(&buffer) {
        Ok(BlueNRGEvent::AttFindByTypeValueResponse(r)) => {
            let mut it = r.handle_pairs_iter();
            let first = it.next().unwrap();
            assert_eq!(first.attribute, AttributeHandle(1));
            assert_eq!(first.group_end, GroupEndHandle(5));
            let second = it.next().unwrap();
            assert_eq!(second.attribute, AttributeHandle(6));
            assert_eq!(second.group_end, GroupEndHandle(9));
            assert!(it.next().is_none());
        }
        other => panic!("Did not get find by type value response: {:?}", other),
    }
    assert!(matches!(
        decode(&[0x05, 0x0C, 0x01, 0x00, 7, 0x01, 0x00, 0x05, 0x00, 0x06, 0x00, 0x09]),
        Err(EventError::Vendor(Error::AttFindByTypeValuePartial))
    ));
}

#[test]
fn read_by_type_pairs_in_order() {
    let buffer = [0x06, 0x0C, 0x01, 0x00, 9, 4, 0x01, 0x00, 0xAA, 0xBB, 0x02, 0x00, 0xCC, 0xDD];
    match decode(&buffer) {
        Ok(BlueNRGEvent::AttReadByTypeResponse(r)) => {
            let mut it = r.handle_value_pair_iter();
            let first = it.next().unwrap();
            assert_eq!(first.handle, AttributeHandle(1));
            assert_eq!(first.value, &[0xAA, 0xBB]);
            let second = it.next().unwrap();
            assert_eq!(second.handle, AttributeHandle(2));
            assert_eq!(second.value, &[0xCC, 0xDD]);
            assert!(it.next().is_none());
        }
        other => panic!("Did not get read by type response: {:?}", other),
    }
    assert!(matches!(
        decode(&[0x06, 0x0C, 0x01, 0x00, 4, 4, 0x01, 0x00, 0xAA]),
        Err(EventError::Vendor(Error::AttReadByTypeResponsePartial))
    ));
    assert!(matches!(
        decode(&[0x06, 0x0C, 0x01, 0x00, 1, 0]),
        Err(EventError::Vendor(Error::AttReadByTypeResponsePartial))
    ));
}

#[test]
fn read_by_group_type_groups_in_order() {
    let buffer = [0x0A, 0x0C, 0x01, 0x00, 13, 6, 0x01, 0x00, 0x05, 0x00, 0x00, 0x18, 0x06, 0x00,
        0x09, 0x00, 0x01, 0x18];
    match decode(&buffer) {
        Ok(BlueNRGEvent::AttReadByGroupTypeResponse(r)) => {
            let mut it = r.attribute_data_iter();
            let first = it.next().unwrap();
            assert_eq!(first.attribute_handle, AttributeHandle(1));
            assert_eq!(first.group_end_handle, GroupEndHandle(5));
            assert_eq!(first.value, &[0x00, 0x18]);
            let second = it.next().unwrap();
            assert_eq!(second.attribute_handle, AttributeHandle(6));
            assert_eq!(second.group_end_handle, GroupEndHandle(9));
            assert_eq!(second.value, &[0x01, 0x18]);
            assert!(it.next().is_none());
        }
        other => panic!("Did not get read by group type response: {:?}", other),
    }
    assert!(matches!(
        decode(&[0x0A, 0x0C, 0x01, 0x00, 4, 6, 0x01, 0x00, 0x05]),
        Err(EventError::Vendor(Error::AttReadByGroupTypeResponsePartial))
    ));
}

#[test]
fn read_responses() {
    let buffer = [0x07, 0x0C, 0x01, 0x00, 3, 7, 8, 9];
    match decode(&buffer) {
        Ok(BlueNRGEvent::AttReadResponse(r)) => assert_eq!(r.value(), &[7, 8, 9]),
        other => panic!("Did not get read response: {:?}", other),
    }
    let blob = [0x08, 0x0C, 0x01, 0x00, 0];
    match decode(&blob) {
        Ok(BlueNRGEvent::AttReadBlobResponse(r)) => assert!(r.value().is_empty()),
        other => panic!("Did not get read blob response: {:?}", other),
    }
    assert!(matches!(decode(&[0x09, 0x0C, 0x01, 0x00, 2, 1]), Err(EventError::BadLength(6, 7))));
}

#[test]
fn prepare_write_response() {
    let buffer = [0x0C, 0x0C, 0x01, 0x00, 6, 0x03, 0x00, 0x10, 0x00, 0xEE, 0xFF];
    match decode(&buffer) {
        Ok(BlueNRGEvent::AttPrepareWriteResponse(r)) => {
            assert_eq!(r.attribute_handle, AttributeHandle(3));
            assert_eq!(r.offset, 16);
            assert_eq!(r.value(), &[0xEE, 0xFF]);
        }
        other => panic!("Did not get prepare write response: {:?}", other),
    }
}

#[test]
fn attribute_values() {
    let buffer = [0x0E, 0x0C, 0x01, 0x00, 4, 0x03, 0x00, 0x42, 0x43];
    match decode(&buffer) {
        Ok(BlueNRGEvent::GattIndication(v)) => {
            assert_eq!(v.conn_handle, ConnectionHandle(1));
            assert_eq!(v.attribute_handle, AttributeHandle(3));
            assert_eq!(v.value(), &[0x42, 0x43]);
        }
        other => panic!("Did not get indication: {:?}", other),
    }
    let permit = [0x13, 0x0C, 0x01, 0x00, 0x04, 0x00, 1, 0x99];
    match decode(&permit) {
        Ok(BlueNRGEvent::AttWritePermitRequest(v)) => {
            assert_eq!(v.attribute_handle, AttributeHandle(4));
            assert_eq!(v.value(), &[0x99]);
        }
        other => panic!("Did not get write permit request: {:?}", other),
    }
}

#[test]
fn gatt_procedure_complete() {
    match decode(&[0x10, 0x0C, 0x01, 0x00, 1, 0x41]) {
        Ok(BlueNRGEvent::GattProcedureComplete(p)) => {
            assert_eq!(p.status, GattProcedureStatus::Failed)
        }
        other => panic!("Did not get procedure complete: {:?}", other),
    }
    assert!(matches!(
        decode(&[0x10, 0x0C, 0x01, 0x00, 1, 0x01]),
        Err(EventError::Vendor(Error::BadGattProcedureStatus(1)))
    ));
}

#[test]
fn att_error_response_codes() {
    match decode(&[0x11, 0x0C, 0x01, 0x00, 4, 0x0A, 0x05, 0x00, 0x0A]) {
        Ok(BlueNRGEvent::AttErrorResponse(r)) => {
            assert_eq!(r.request, AttRequest::ReadRequest);
            assert_eq!(r.attribute_handle, AttributeHandle(5));
            assert_eq!(r.error, AttError::AttributeNotFound);
        }
        other => panic!("Did not get error response: {:?}", other),
    }
    assert!(matches!(
        decode(&[0x11, 0x0C, 0x01, 0x00, 4, 0x14, 0x05, 0x00, 0x0A]),
        Err(EventError::Vendor(Error::BadAttRequestOpcode(0x14)))
    ));
    assert_eq!(AttError::from(0x00), AttError::Reserved0x00);
    assert_eq!(AttError::from(0x85), AttError::ApplicationError0x85);
    assert_eq!(AttError::from(0xA0), AttError::Reserveda0h);
    assert_eq!(AttError::from(0xFF), AttError::OutOfRange);
    assert_eq!(AttRequest::try_from(0xD2).unwrap(), AttRequest::SignedWriteCommand);
}
