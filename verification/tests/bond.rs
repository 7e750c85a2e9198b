use media_widget::bond::{
    bond_requests_under, restored_bond, storage_range, write_bond, BondInformation, SecurityLevel, SerializationError,
    StoreRequest, StoredAddr, StoredBondInformation, ADDR_LEN, BOND_LEN, RECORD_BUFFER_LEN,
};

const LTK: u128 = 0x0f0e0d0c0b0a09080706050403020100;
const IRK: u128 = 0x1f1e1d1c1b1a19181716151413121110;

fn bond() -> BondInformation {
    BondInformation {
        bd_addr: [0x01, 0xaa, 0x55, 0x04, 0x05, 0xfe],
        irk: Some(IRK),
        ltk: LTK,
        security_level: SecurityLevel::EncryptedAuthenticated,
        is_bonded: false,
    }
}

fn bond_bytes(level: u8) -> [u8; 33] {
    let mut bytes = [0u8; 33];
    for i in 0..32 {
        bytes[i] = i as u8;
    }
    bytes[32] = level;
    bytes
}

#[test]
fn address_is_written_to_the_front() {
    let mut buffer = [0xffu8; 8];
    assert_eq!(StoredAddr([1, 2, 3, 4, 5, 6]).serialize_into(&mut buffer), Ok(6));
    assert_eq!(buffer, [1, 2, 3, 4, 5, 6, 0xff, 0xff]);
}

#[test]
fn address_needs_six_bytes_to_be_written() {
    let mut buffer = [0xffu8; 5];
    assert_eq!(
        StoredAddr([1, 2, 3, 4, 5, 6]).serialize_into(&mut buffer),
        Err(SerializationError::BufferTooSmall)
    );
    assert_eq!(buffer, [0xff; 5]);
}

#[test]
fn address_is_read_from_the_front() {
    assert_eq!(
        StoredAddr::deserialize_from(&[1, 2, 3, 4, 5, 6, 7]),
        Ok((StoredAddr([1, 2, 3, 4, 5, 6]), 6))
    );
    assert_eq!(
        StoredAddr::deserialize_from(&[9, 8, 7, 6, 5, 4]),
        Ok((StoredAddr([9, 8, 7, 6, 5, 4]), 6))
    );
}

#[test]
fn address_needs_six_bytes_to_be_read() {
    assert_eq!(
        StoredAddr::deserialize_from(&[1, 2, 3, 4, 5]),
        Err(SerializationError::BufferTooSmall)
    );
}

#[test]
fn address_is_read_as_it_was_written() {
    let addr = StoredAddr([0xde, 0xad, 0xbe, 0xef, 0x00, 0x01]);
    let mut buffer = [0x77u8; 10];
    addr.serialize_into(&mut buffer).unwrap();
    assert_eq!(StoredAddr::deserialize_from(&buffer), Ok((addr, ADDR_LEN)));
}

#[test]
fn bond_is_written_to_the_front() {
    let mut buffer = [0xffu8; 35];
    let (_, value) = bond().to_record();
    assert_eq!(value.serialize_into(&mut buffer), Ok(33));
    assert_eq!(buffer[..33], bond_bytes(2));
    assert_eq!(buffer[33..], [0xff, 0xff]);
}

#[test]
fn missing_identity_key_is_written_as_zeros() {
    let value = StoredBondInformation {
        ltk: u128::MAX,
        irk: None,
        security_level: SecurityLevel::NoEncryption,
    };
    let mut buffer = [0x55u8; 33];
    assert_eq!(value.serialize_into(&mut buffer), Ok(33));
    assert_eq!(buffer[..16], [0xff; 16]);
    assert_eq!(buffer[16..], [0x00; 17]);
}

#[test]
fn bond_needs_its_length_to_be_written() {
    let mut buffer = [0xffu8; 32];
    let (_, value) = bond().to_record();
    assert_eq!(value.serialize_into(&mut buffer), Err(SerializationError::BufferTooSmall));
    assert_eq!(buffer, [0xff; 32]);
}

#[test]
fn bond_needs_its_length_to_be_read() {
    assert_eq!(
        StoredBondInformation::deserialize_from(&[0u8; 32]),
        Err(SerializationError::BufferTooSmall)
    );
    assert_eq!(
        StoredBondInformation::deserialize_from(&[9u8; 32]),
        Err(SerializationError::BufferTooSmall)
    );
}

#[test]
fn every_level_has_its_byte() {
    let levels = [
        SecurityLevel::NoEncryption,
        SecurityLevel::Encrypted,
        SecurityLevel::EncryptedAuthenticated,
    ];
    for (code, level) in levels.into_iter().enumerate() {
        let (value, len) =
            StoredBondInformation::deserialize_from(&bond_bytes(code as u8)).unwrap();
        assert_eq!(len, BOND_LEN);
        assert_eq!(
            value,
            StoredBondInformation { ltk: LTK, irk: Some(IRK), security_level: level }
        );
        let mut buffer = [0u8; 33];
        value.serialize_into(&mut buffer).unwrap();
        assert_eq!(buffer[32], code as u8);
    }
}

#[test]
fn unknown_level_is_invalid() {
    for code in 3..=255u8 {
        assert_eq!(
            StoredBondInformation::deserialize_from(&bond_bytes(code)),
            Err(SerializationError::InvalidData)
        );
    }
}

#[test]
fn bond_is_read_as_it_was_written() {
    let values = [
        StoredBondInformation {
            ltk: 0,
            irk: None,
            security_level: SecurityLevel::NoEncryption,
        },
        StoredBondInformation {
            ltk: 1,
            irk: Some(1),
            security_level: SecurityLevel::Encrypted,
        },
        StoredBondInformation {
            ltk: u128::MAX,
            irk: Some(1 << 127),
            security_level: SecurityLevel::EncryptedAuthenticated,
        },
    ];
    for value in values {
        let mut buffer = [0xeeu8; 40];
        value.serialize_into(&mut buffer).unwrap();
        assert_eq!(StoredBondInformation::deserialize_from(&buffer), Ok((value, 33)));
    }
}

#[test]
fn zero_identity_key_is_read_as_missing() {
    let value = StoredBondInformation {
        ltk: 7,
        irk: Some(0),
        security_level: SecurityLevel::Encrypted,
    };
    let mut buffer = [0xeeu8; 33];
    value.serialize_into(&mut buffer).unwrap();
    let read = StoredBondInformation { irk: None, ..value };
    assert_eq!(StoredBondInformation::deserialize_from(&buffer), Ok((read, 33)));
}

#[test]
fn bond_is_rewritten_as_it_was_read() {
    let bytes = bond_bytes(1);
    let (value, _) = StoredBondInformation::deserialize_from(&bytes).unwrap();
    let mut buffer = [0u8; 33];
    value.serialize_into(&mut buffer).unwrap();
    assert_eq!(buffer, bytes);
}

#[test]
fn bond_is_written_as_the_host_writes_its_keys() {
    let (_, value) = bond().to_record();
    let mut buffer = [0u8; 33];
    value.serialize_into(&mut buffer).unwrap();
    assert_eq!(buffer[..16], trouble_host::LongTermKey::new(LTK).to_le_bytes());
    assert_eq!(buffer[16..32], trouble_host::IdentityResolvingKey::new(IRK).to_le_bytes());
}

#[test]
fn encrypted_as_the_host_sees_it() {
    let levels = [
        (SecurityLevel::NoEncryption, trouble_host::connection::SecurityLevel::NoEncryption),
        (SecurityLevel::Encrypted, trouble_host::connection::SecurityLevel::Encrypted),
        (
            SecurityLevel::EncryptedAuthenticated,
            trouble_host::connection::SecurityLevel::EncryptedAuthenticated,
        ),
    ];
    for (level, host) in levels {
        assert_eq!(level.encrypted(), host.encrypted());
    }
    assert!(!SecurityLevel::NoEncryption.encrypted());
    assert!(SecurityLevel::Encrypted.encrypted());
}

#[test]
fn record_holds_address_keys_and_level() {
    assert_eq!(
        bond().to_record(),
        (
            StoredAddr([0x01, 0xaa, 0x55, 0x04, 0x05, 0xfe]),
            StoredBondInformation {
                ltk: LTK,
                irk: Some(IRK),
                security_level: SecurityLevel::EncryptedAuthenticated,
            }
        )
    );
}

#[test]
fn store_is_emptied_before_a_bond_is_kept() {
    let (key, value) = bond().to_record();
    assert_eq!(
        write_bond(&bond()),
        [StoreRequest::EraseAll, StoreRequest::StoreItem { key, value }]
    );
}

#[test]
fn bond_is_kept_under_the_key_that_is_given() {
    let (own, value) = bond().to_record();
    let key = StoredAddr([9, 9, 9, 9, 9, 9]);
    let requests = [StoreRequest::EraseAll, StoreRequest::StoreItem { key, value }];
    assert_eq!(bond_requests_under(key, &bond()), requests);
    let other = BondInformation { bd_addr: [0; 6], is_bonded: true, ..bond() };
    assert_eq!(bond_requests_under(key, &other), requests);
    assert_eq!(bond_requests_under(own, &bond()), write_bond(&bond()));
    assert_eq!(
        restored_bond(Some((key, value))),
        Some(BondInformation { bd_addr: key.0, is_bonded: true, ..bond() })
    );
}

#[test]
fn key_and_value_fill_the_record_buffer() {
    let (key, value) = bond().to_record();
    let mut buffer = [0u8; RECORD_BUFFER_LEN];
    let used = key.serialize_into(&mut buffer).unwrap();
    assert_eq!(used + value.serialize_into(&mut buffer[used..]).unwrap(), RECORD_BUFFER_LEN);
}

#[test]
fn nothing_is_restored_from_an_empty_store() {
    assert_eq!(restored_bond(None), None);
}

#[test]
fn kept_bond_is_restored_as_bonded() {
    let mut key_bytes = [0u8; 6];
    let mut value_bytes = [0u8; 33];
    for request in write_bond(&bond()) {
        if let StoreRequest::StoreItem { key, value } = request {
            key.serialize_into(&mut key_bytes).unwrap();
            value.serialize_into(&mut value_bytes).unwrap();
        }
    }
    let (key, _) = StoredAddr::deserialize_from(&key_bytes).unwrap();
    let (value, _) = StoredBondInformation::deserialize_from(&value_bytes).unwrap();
    assert_eq!(
        restored_bond(Some((key, value))),
        Some(BondInformation { is_bonded: true, ..bond() })
    );
}

#[test]
fn store_takes_the_last_two_erase_units() {
    assert_eq!(storage_range(16 * 1024 * 1024, 4096), 16_769_024..16_777_216);
    assert_eq!(storage_range(8192, 4096), 0..8192);
}

#[test]
fn different_bonds_have_different_bytes() {
    let (_, value) = bond().to_record();
    let others = [
        StoredBondInformation { ltk: LTK + 1, ..value },
        StoredBondInformation { irk: None, ..value },
        StoredBondInformation { security_level: SecurityLevel::Encrypted, ..value },
    ];
    let mut bytes = [0u8; 33];
    value.serialize_into(&mut bytes).unwrap();
    for other in others {
        let mut other_bytes = [0u8; 33];
        other.serialize_into(&mut other_bytes).unwrap();
        assert_ne!(bytes, other_bytes);
    }
}
