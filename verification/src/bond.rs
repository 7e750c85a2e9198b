//! The bond with a phone, and the form in which it is kept in flash.
//!
//! A bond is one record of a key-value store: the address of the phone is the
//! key, its long term key, identity resolving key and security level are the
//! value.

use vstd::arithmetic::power::pow;
use vstd::prelude::*;

use crate::copy::{read_at, write_at};
use crate::keys::{irk_from_le_bytes, irk_to_le_bytes, ltk_from_le_bytes, ltk_to_le_bytes};
use crate::le::{
    le_bound, le_bytes, le_bytes_digit, le_bytes_len, le_bytes_of_le_value, le_value,
    le_value_digit, le_value_of_le_bytes, le_value_zero, u128_fits_sixteen_bytes,
};

verus! {

/// Bytes that the key of a record takes.
pub const ADDR_LEN: usize = 6;

/// Bytes that the value of a record takes.
pub const BOND_LEN: usize = 33;

/// Size of the buffer in which a record is put together.
pub const RECORD_BUFFER_LEN: usize = 39;

/// Why a key or a value could not be written or read.
#[derive(Debug, Clone, Copy, PartialEq, Eq, Structural)]
pub enum SerializationError {
    /// The buffer is shorter than the key or the value.
    BufferTooSmall,
    /// The bytes stand for no value.
    InvalidData,
}

/// How well a connection is protected.
#[derive(Debug, Clone, Copy, PartialEq, Eq, Structural)]
pub enum SecurityLevel {
    NoEncryption,
    Encrypted,
    EncryptedAuthenticated,
}

impl SecurityLevel {
    /// The byte that stands for the level in flash.
    pub open spec fn code(self) -> u8 {
        match self {
            SecurityLevel::NoEncryption => 0,
            SecurityLevel::Encrypted => 1,
            SecurityLevel::EncryptedAuthenticated => 2,
        }
    }

    /// Whether the connection is encrypted, with or without authentication.
    pub fn encrypted(&self) -> (result: bool)
        ensures
            result <==> *self != SecurityLevel::NoEncryption,
    {
        !matches!(self, SecurityLevel::NoEncryption)
    }
}

/// The level that a byte stands for in flash.
pub open spec fn level_of_code(code: u8) -> Option<SecurityLevel> {
    if code == 0 {
        Some(SecurityLevel::NoEncryption)
    } else if code == 1 {
        Some(SecurityLevel::Encrypted)
    } else if code == 2 {
        Some(SecurityLevel::EncryptedAuthenticated)
    } else {
        None
    }
}

/// What the Bluetooth host knows of a bonded phone.
#[derive(Debug, Clone, Copy, PartialEq, Eq)]
pub struct BondInformation {
    /// The phone's address, in the byte order of the host.
    pub bd_addr: [u8; 6],
    /// The identity resolving key, where the phone gave one.
    pub irk: Option<u128>,
    /// The long term key.
    pub ltk: u128,
    pub security_level: SecurityLevel,
    pub is_bonded: bool,
}

/// The key of a record: the address of the bonded phone.
#[derive(Debug, Clone, Copy, PartialEq, Eq)]
pub struct StoredAddr(pub [u8; 6]);

impl StoredAddr {
    /// The bytes of the key in flash.
    pub open spec fn encoding(self) -> Seq<u8> {
        self.0@
    }

    /// Writes the key to the front of `buffer` and returns how many bytes it
    /// took. Bytes behind the key stay as they are, and so does the whole buffer
    /// when it is too small.
    pub fn serialize_into(&self, buffer: &mut [u8]) -> (result: Result<usize, SerializationError>)
        ensures
            old(buffer)@.len() < ADDR_LEN ==> {
                &&& result == Err::<usize, _>(SerializationError::BufferTooSmall)
                &&& final(buffer)@ == old(buffer)@
            },
            old(buffer)@.len() >= ADDR_LEN ==> {
                &&& result == Ok::<_, SerializationError>(ADDR_LEN)
                &&& final(buffer)@ == self.encoding() + old(buffer)@.subrange(
                    ADDR_LEN as int,
                    old(buffer)@.len() as int,
                )
            },
            result is Ok <==> old(buffer)@.len() >= 6,
            result matches Ok(len) ==> {
                &&& len == 6
                &&& final(buffer)@.len() == old(buffer)@.len()
                &&& forall|i: int| 0 <= i < 6 ==> final(buffer)@[i] == self.0@[i]
                &&& forall|i: int|
                    6 <= i < old(buffer)@.len() ==> final(buffer)@[i] == old(buffer)@[i]
            },
    {
        if buffer.len() < ADDR_LEN {
            return Err(SerializationError::BufferTooSmall);
        }
        write_at(buffer, 0, &self.0);
        assert(buffer@ =~= self.encoding() + old(buffer)@.subrange(6, old(buffer)@.len() as int));
        Ok(ADDR_LEN)
    }

    /// Reads the key from the front of `buffer`, and returns it with the number
    /// of bytes it took.
    pub fn deserialize_from(buffer: &[u8]) -> (result: Result<(Self, usize), SerializationError>)
        ensures
            match result {
                Ok((addr, len)) => {
                    &&& buffer@.len() >= ADDR_LEN
                    &&& addr.encoding() == buffer@.subrange(0, ADDR_LEN as int)
                    &&& len == ADDR_LEN
                },
                Err(error) => {
                    &&& buffer@.len() < ADDR_LEN
                    &&& error == SerializationError::BufferTooSmall
                },
            },
            result is Ok <==> buffer@.len() >= 6,
            result matches Ok((addr, len)) ==> {
                &&& len == 6
                &&& forall|i: int| 0 <= i < 6 ==> addr.0@[i] == buffer@[i]
            },
    {
        if buffer.len() < ADDR_LEN {
            Err(SerializationError::BufferTooSmall)
        } else {
            Ok((StoredAddr(read_at::<6>(buffer, 0)), ADDR_LEN))
        }
    }
}

/// The value of a record: the keys and the security level of the bond.
#[derive(Debug, Clone, Copy, PartialEq, Eq)]
pub struct StoredBondInformation {
    pub ltk: u128,
    pub irk: Option<u128>,
    pub security_level: SecurityLevel,
}

/// The sixteen bytes of an identity resolving key in flash; zeros stand for a
/// missing key.
pub open spec fn irk_encoding(irk: Option<u128>) -> Seq<u8> {
    match irk {
        Some(key) => le_bytes(key as nat, 16),
        None => Seq::new(16, |i: int| 0u8),
    }
}

/// The identity resolving key that sixteen bytes stand for in flash.
pub open spec fn irk_decoding(bytes: Seq<u8>) -> Option<u128> {
    if forall|i: int| 0 <= i < bytes.len() ==> bytes[i] == 0 {
        None
    } else {
        Some(le_value(bytes) as u128)
    }
}

impl StoredBondInformation {
    /// The bytes of the value in flash.
    pub open spec fn encoding(self) -> Seq<u8> {
        le_bytes(self.ltk as nat, 16) + irk_encoding(self.irk) + seq![self.security_level.code()]
    }

    /// The value that the front of `bytes` stands for.
    pub open spec fn decoding(bytes: Seq<u8>) -> Result<Self, SerializationError> {
        if bytes.len() < BOND_LEN {
            Err(SerializationError::BufferTooSmall)
        } else {
            match level_of_code(bytes[32]) {
                Some(security_level) => Ok(
                    StoredBondInformation {
                        ltk: le_value(bytes.subrange(0, 16)) as u128,
                        irk: irk_decoding(bytes.subrange(16, 32)),
                        security_level,
                    },
                ),
                None => Err(SerializationError::InvalidData),
            }
        }
    }

    /// Writes the value to the front of `buffer` and returns how many bytes it
    /// took. Bytes behind the value stay as they are, and so does the whole
    /// buffer when it is too small.
    pub fn serialize_into(&self, buffer: &mut [u8]) -> (result: Result<usize, SerializationError>)
        ensures
            old(buffer)@.len() < BOND_LEN ==> {
                &&& result == Err::<usize, _>(SerializationError::BufferTooSmall)
                &&& final(buffer)@ == old(buffer)@
            },
            old(buffer)@.len() >= BOND_LEN ==> {
                &&& result == Ok::<_, SerializationError>(BOND_LEN)
                &&& final(buffer)@ == self.encoding() + old(buffer)@.subrange(
                    BOND_LEN as int,
                    old(buffer)@.len() as int,
                )
            },
            result is Ok <==> old(buffer)@.len() >= 33,
            result matches Ok(len) ==> {
                &&& len == 33
                &&& final(buffer)@.len() == old(buffer)@.len()
                &&& forall|i: int|
                    0 <= i < 16 ==> final(buffer)@[i] == (self.ltk as int / pow(256, i as nat))
                        % 256
                &&& self.irk matches Some(key) ==> forall|i: int|
                    16 <= i < 32 ==> final(buffer)@[i] == (key as int / pow(256, (i - 16) as nat))
                        % 256
                &&& self.irk is None ==> forall|i: int| 16 <= i < 32 ==> final(buffer)@[i] == 0
                &&& self.security_level == SecurityLevel::NoEncryption ==> final(buffer)@[32] == 0
                &&& self.security_level == SecurityLevel::Encrypted ==> final(buffer)@[32] == 1
                &&& self.security_level == SecurityLevel::EncryptedAuthenticated
                    ==> final(buffer)@[32] == 2
                &&& forall|i: int|
                    33 <= i < old(buffer)@.len() ==> final(buffer)@[i] == old(buffer)@[i]
            },
    {
        if buffer.len() < BOND_LEN {
            return Err(SerializationError::BufferTooSmall);
        }
        let ltk: [u8; 16] = ltk_to_le_bytes(self.ltk);
        let irk: [u8; 16] = match self.irk {
            Some(key) => irk_to_le_bytes(key),
            None => [0u8; 16],
        };
        let level: u8 = match self.security_level {
            SecurityLevel::NoEncryption => 0,
            SecurityLevel::Encrypted => 1,
            SecurityLevel::EncryptedAuthenticated => 2,
        };
        assert(irk@ =~= irk_encoding(self.irk));
        write_at(buffer, 0, &ltk);
        write_at(buffer, 16, &irk);
        buffer[32] = level;
        assert(buffer@ =~= self.encoding() + old(buffer)@.subrange(33, old(buffer)@.len() as int));
        proof {
            bond_encoding_bytes(*self);
            assert(forall|i: int| 0 <= i < 33 ==> buffer@[i] == self.encoding()[i]);
        }
        Ok(BOND_LEN)
    }

    /// Reads the value from the front of `buffer`, and returns it with the
    /// number of bytes it took.
    pub fn deserialize_from(buffer: &[u8]) -> (result: Result<(Self, usize), SerializationError>)
        ensures
            match Self::decoding(buffer@) {
                Ok(value) => result == Ok::<_, SerializationError>((value, BOND_LEN)),
                Err(error) => result == Err::<(Self, usize), _>(error),
            },
            result is Ok <==> buffer@.len() >= 33 && buffer@[32] <= 2,
            result == Err::<(Self, usize), _>(SerializationError::BufferTooSmall)
                <==> buffer@.len() < 33,
            result == Err::<(Self, usize), _>(SerializationError::InvalidData) <==> buffer@.len()
                >= 33 && buffer@[32] > 2,
            result matches Ok((value, len)) ==> {
                &&& len == 33
                &&& forall|i: int|
                    0 <= i < 16 ==> buffer@[i] == (value.ltk as int / pow(256, i as nat)) % 256
                &&& value.irk is None <==> forall|i: int| 16 <= i < 32 ==> buffer@[i] == 0
                &&& value.irk matches Some(key) ==> forall|i: int|
                    16 <= i < 32 ==> buffer@[i] == (key as int / pow(256, (i - 16) as nat)) % 256
                &&& value.security_level == SecurityLevel::NoEncryption <==> buffer@[32] == 0
                &&& value.security_level == SecurityLevel::Encrypted <==> buffer@[32] == 1
                &&& value.security_level == SecurityLevel::EncryptedAuthenticated <==> buffer@[32]
                    == 2
            },
    {
        if buffer.len() < BOND_LEN {
            return Err(SerializationError::BufferTooSmall);
        }
        let ltk: u128 = ltk_from_le_bytes(read_at::<16>(buffer, 0));
        let raw_irk: [u8; 16] = read_at::<16>(buffer, 16);
        let irk: Option<u128> = if all_zero(&raw_irk) {
            None
        } else {
            Some(irk_from_le_bytes(raw_irk))
        };
        let security_level = match buffer[32] {
            0 => SecurityLevel::NoEncryption,
            1 => SecurityLevel::Encrypted,
            2 => SecurityLevel::EncryptedAuthenticated,
            _ => return Err(SerializationError::InvalidData),
        };
        proof {
            let ltk_bytes = buffer@.subrange(0, 16);
            let irk_bytes = buffer@.subrange(16, 32);
            key_of_bytes(ltk_bytes);
            assert(ltk == le_value(ltk_bytes));
            key_of_bytes(irk_bytes);
            assert forall|i: int| 0 <= i < 16 implies #[trigger] buffer@[i] == (ltk as int / pow(
                256,
                i as nat,
            )) % 256 by {
                assert(ltk_bytes[i] == buffer@[i]);
            }
            assert(forall|i: int| 16 <= i < 32 ==> buffer@[i] == irk_bytes[i - 16]);
            assert(forall|i: int| 0 <= i < 16 ==> irk_bytes[i] == buffer@[i + 16]);
        }
        Ok((StoredBondInformation { ltk, irk, security_level }, BOND_LEN))
    }
}

/// Whether every byte is zero.
fn all_zero(bytes: &[u8]) -> (result: bool)
    ensures
        result <==> (forall|i: int| 0 <= i < bytes@.len() ==> bytes@[i] == 0),
{
    let mut i: usize = 0;
    while i < bytes.len()
        invariant
            i <= bytes@.len(),
            forall|j: int| 0 <= j < i ==> bytes@[j] == 0,
        decreases bytes@.len() - i,
    {
        if bytes[i] != 0 {
            return false;
        }
        i += 1;
    }
    true
}

impl BondInformation {
    /// The record under which the bond is kept: its address as the key, its
    /// keys and security level as the value. Whether the pairing was a bonding
    /// one is not kept.
    pub fn to_record(&self) -> (record: (StoredAddr, StoredBondInformation))
        ensures
            record == self.record(),
            record.0.0 == self.bd_addr,
            record.1.ltk == self.ltk,
            record.1.irk == self.irk,
            record.1.security_level == self.security_level,
    {
        (
            StoredAddr(self.bd_addr),
            StoredBondInformation {
                ltk: self.ltk,
                irk: self.irk,
                security_level: self.security_level,
            },
        )
    }

    /// The record under which the bond is kept.
    pub open spec fn record(self) -> (StoredAddr, StoredBondInformation) {
        (
            StoredAddr(self.bd_addr),
            StoredBondInformation {
                ltk: self.ltk,
                irk: self.irk,
                security_level: self.security_level,
            },
        )
    }

    /// The bond that a record stands for; a stored bond is a bonded one.
    pub open spec fn of_record(key: StoredAddr, value: StoredBondInformation) -> Self {
        BondInformation {
            bd_addr: key.0,
            irk: value.irk,
            ltk: value.ltk,
            security_level: value.security_level,
            is_bonded: true,
        }
    }
}

/// What is asked of the record store.
#[derive(Debug, Clone, Copy, PartialEq, Eq)]
pub enum StoreRequest {
    /// Remove every record.
    EraseAll,
    /// Add a record.
    StoreItem { key: StoredAddr, value: StoredBondInformation },
}

/// The records that a store holds, oldest first, as the bytes of their keys and
/// values.
pub type Records = Seq<(Seq<u8>, Seq<u8>)>;

impl StoreRequest {
    /// What a store that held `records` holds once the request is met: a record
    /// goes behind those that are there, also behind one under the same key.
    pub open spec fn applied(self, records: Records) -> Records {
        match self {
            StoreRequest::EraseAll => Seq::empty(),
            StoreRequest::StoreItem { key, value } => records.push(
                (key.encoding(), value.encoding()),
            ),
        }
    }
}

/// What a store that held `records` holds once `requests` are met in order.
pub open spec fn all_applied(records: Records, requests: Seq<StoreRequest>) -> Records
    decreases requests.len(),
{
    if requests.len() == 0 {
        records
    } else {
        all_applied(requests[0].applied(records), requests.drop_first())
    }
}

/// What is asked of the store, in this order, to keep a bond under `key`.
pub open spec fn requests_under(key: StoredAddr, bond: BondInformation) -> Seq<StoreRequest> {
    seq![StoreRequest::EraseAll, StoreRequest::StoreItem { key, value: bond.record().1 }]
}

/// What is asked of the store, in this order, to keep a bond under its own
/// address.
pub open spec fn bond_requests(bond: BondInformation) -> Seq<StoreRequest> {
    requests_under(bond.record().0, bond)
}

/// What is asked of the store, in this order, to keep a bond under `key`: the
/// store is emptied first, so that it holds one bond at most. The address that is
/// kept is `key`; the one in the bond is not.
pub fn bond_requests_under(key: StoredAddr, bond: &BondInformation) -> (requests: [StoreRequest;
    2])
    ensures
        requests@ == requests_under(key, *bond),
        requests@ == seq![
            StoreRequest::EraseAll,
            StoreRequest::StoreItem { key, value: bond.record().1 },
        ],
        requests@ == seq![
            StoreRequest::EraseAll,
            StoreRequest::StoreItem {
                key,
                value: StoredBondInformation {
                    ltk: bond.ltk,
                    irk: bond.irk,
                    security_level: bond.security_level,
                },
            },
        ],
{
    let (_, value) = bond.to_record();
    [StoreRequest::EraseAll, StoreRequest::StoreItem { key, value }]
}

/// What is asked of the store, in this order, to keep a bond under its own
/// address.
pub fn write_bond(bond: &BondInformation) -> (requests: [StoreRequest; 2])
    ensures
        requests@ == bond_requests(*bond),
        requests@ == seq![
            StoreRequest::EraseAll,
            StoreRequest::StoreItem {
                key: StoredAddr(bond.bd_addr),
                value: StoredBondInformation {
                    ltk: bond.ltk,
                    irk: bond.irk,
                    security_level: bond.security_level,
                },
            },
        ],
{
    bond_requests_under(StoredAddr(bond.bd_addr), bond)
}

/// The bond to hand to the Bluetooth host at start, given the first record that
/// the store holds.
pub fn restored_bond(first: Option<(StoredAddr, StoredBondInformation)>) -> (bond: Option<
    BondInformation,
>)
    ensures
        match first {
            Some((key, value)) => bond == Some(BondInformation::of_record(key, value)),
            None => bond == None::<BondInformation>,
        },
        first is None <==> bond is None,
        first matches Some((key, value)) ==> (bond matches Some(bond) && {
            &&& bond.bd_addr == key.0
            &&& bond.irk == value.irk
            &&& bond.ltk == value.ltk
            &&& bond.security_level == value.security_level
            &&& bond.is_bonded
        }),
{
    match first {
        Some((key, value)) => Some(
            BondInformation {
                bd_addr: key.0,
                irk: value.irk,
                ltk: value.ltk,
                security_level: value.security_level,
                is_bonded: true,
            },
        ),
        None => None,
    }
}

/// The part of flash that holds the record store: the last two erase units of
/// a flash of `capacity` bytes. Sizes are taken as 32-bit numbers.
pub fn storage_range(capacity: usize, erase_size: usize) -> (range: core::ops::Range<u32>)
    requires
        2 * (erase_size as u32) <= capacity as u32,
    ensures
        range.start == capacity as u32 - 2 * (erase_size as u32),
        range.end == capacity as u32,
{
    let erase_size: u32 = erase_size as u32;
    let capacity: u32 = capacity as u32;
    (capacity - erase_size * 2)..capacity
}

/// The sixteen bytes of a key are its digits in base 256.
proof fn bytes_of_key(key: u128)
    ensures
        le_bytes(key as nat, 16).len() == 16,
        forall|i: int|
            0 <= i < 16 ==> (#[trigger] le_bytes(key as nat, 16)[i]) == (key as int / pow(
                256,
                i as nat,
            )) % 256,
{
    le_bytes_len(key as nat, 16);
    assert forall|i: int| 0 <= i < 16 implies (#[trigger] le_bytes(key as nat, 16)[i]) == (
    key as int / pow(256, i as nat)) % 256 by {
        le_bytes_digit(key as nat, 16, i);
    }
}

/// Sixteen bytes are the digits, in base 256, of the key that they stand for.
proof fn key_of_bytes(bytes: Seq<u8>)
    requires
        bytes.len() == 16,
    ensures
        le_value(bytes) <= u128::MAX,
        forall|i: int|
            0 <= i < 16 ==> #[trigger] bytes[i] == (le_value(bytes) as int / pow(256, i as nat))
                % 256,
{
    le_bytes_of_le_value(bytes);
    reveal_with_fuel(le_bound, 17);
    assert forall|i: int| 0 <= i < 16 implies #[trigger] bytes[i] == (le_value(bytes) as int
        / pow(256, i as nat)) % 256 by {
        le_value_digit(bytes, i);
    }
}

/// The bytes of a value in flash: sixteen digits of the long term key in base
/// 256, least significant first, sixteen of the identity resolving key, which are
/// zeros where it is missing, and a byte from 0 to 2 that grows with the security
/// level.
pub proof fn bond_encoding_bytes(value: StoredBondInformation)
    ensures
        value.encoding().len() == 33,
        forall|i: int|
            0 <= i < 16 ==> (#[trigger] value.encoding()[i]) == (value.ltk as int / pow(
                256,
                i as nat,
            )) % 256,
        value.irk matches Some(key) ==> forall|i: int|
            16 <= i < 32 ==> (#[trigger] value.encoding()[i]) == (key as int / pow(
                256,
                (i - 16) as nat,
            )) % 256,
        value.irk is None ==> forall|i: int|
            16 <= i < 32 ==> (#[trigger] value.encoding()[i]) == 0,
        value.security_level == SecurityLevel::NoEncryption <==> value.encoding()[32] == 0,
        value.security_level == SecurityLevel::Encrypted <==> value.encoding()[32] == 1,
        value.security_level == SecurityLevel::EncryptedAuthenticated <==> value.encoding()[32]
            == 2,
{
    let ltk_bytes = le_bytes(value.ltk as nat, 16);
    let irk_bytes = irk_encoding(value.irk);
    bytes_of_key(value.ltk);
    if let Some(key) = value.irk {
        bytes_of_key(key);
    }
    assert(forall|i: int| 0 <= i < 16 ==> value.encoding()[i] == ltk_bytes[i]);
    assert(forall|i: int| 16 <= i < 32 ==> value.encoding()[i] == irk_bytes[i - 16]);
}

/// A value takes `BOND_LEN` bytes in flash, and a key `ADDR_LEN`.
pub proof fn encoding_lengths(addr: StoredAddr, value: StoredBondInformation)
    ensures
        addr.encoding().len() == ADDR_LEN,
        value.encoding().len() == BOND_LEN,
{
    le_bytes_len(value.ltk as nat, 16);
    if let Some(key) = value.irk {
        le_bytes_len(key as nat, 16);
    }
}

/// A key and a value fill the record buffer exactly.
pub proof fn record_fills_buffer(addr: StoredAddr, value: StoredBondInformation)
    ensures
        (addr.encoding() + value.encoding()).len() == RECORD_BUFFER_LEN,
{
    encoding_lengths(addr, value);
}

/// Reading back a key that was written gives the key, whatever follows it.
pub proof fn addr_roundtrip(addr: StoredAddr, tail: Seq<u8>, read: StoredAddr)
    requires
        read.encoding() == (addr.encoding() + tail).subrange(0, ADDR_LEN as int),
    ensures
        read == addr,
{
    assert((addr.encoding() + tail).subrange(0, 6) =~= addr.encoding());
    assert(read.0 =~= addr.0);
}

/// Reading back a value that was written gives the value, whatever follows it,
/// except that an identity resolving key of zero is read as a missing key.
pub proof fn bond_read_back(value: StoredBondInformation, tail: Seq<u8>)
    ensures
        StoredBondInformation::decoding(value.encoding() + tail) == Ok::<_, SerializationError>(
            StoredBondInformation {
                irk: if value.irk == Some(0u128) {
                    None
                } else {
                    value.irk
                },
                ..value
            },
        ),
{
    encoding_lengths(StoredAddr([0, 0, 0, 0, 0, 0]), value);
    let bytes = value.encoding() + tail;
    let ltk_bytes = le_bytes(value.ltk as nat, 16);
    let irk_bytes = irk_encoding(value.irk);
    le_bytes_len(value.ltk as nat, 16);
    assert(bytes.subrange(0, 16) =~= ltk_bytes);
    assert(bytes.subrange(16, 32) =~= irk_bytes);
    assert(bytes[32] == value.security_level.code());
    u128_fits_sixteen_bytes(value.ltk);
    le_value_of_le_bytes(value.ltk as nat, 16);
    if let Some(key) = value.irk {
        u128_fits_sixteen_bytes(key);
        le_value_of_le_bytes(key as nat, 16);
        le_value_zero(irk_bytes);
    }
}

/// Reading back a value that was written gives the value, whatever follows it,
/// as long as its identity resolving key is not zero.
pub proof fn bond_roundtrip(value: StoredBondInformation, tail: Seq<u8>)
    requires
        value.irk != Some(0u128),
    ensures
        StoredBondInformation::decoding(value.encoding() + tail) == Ok::<_, SerializationError>(
            value,
        ),
{
    bond_read_back(value, tail);
}

/// Values with the same bytes in flash are the same, as long as neither has an
/// identity resolving key of zero.
pub proof fn bond_encoding_is_injective(one: StoredBondInformation, other: StoredBondInformation)
    requires
        one.irk != Some(0u128),
        other.irk != Some(0u128),
        one.encoding() == other.encoding(),
    ensures
        one == other,
{
    bond_roundtrip(one, Seq::empty());
    bond_roundtrip(other, Seq::empty());
}

/// Writing a value that was read gives back the bytes it was read from.
pub proof fn bond_rewrite(bytes: Seq<u8>, value: StoredBondInformation)
    requires
        StoredBondInformation::decoding(bytes) == Ok::<_, SerializationError>(value),
    ensures
        value.encoding() == bytes.subrange(0, BOND_LEN as int),
{
    let ltk_bytes = bytes.subrange(0, 16);
    let irk_bytes = bytes.subrange(16, 32);
    le_bytes_of_le_value(ltk_bytes);
    le_bytes_of_le_value(irk_bytes);
    reveal_with_fuel(le_bound, 17);
    assert(irk_encoding(value.irk) =~= irk_bytes);
    assert(value.encoding() =~= bytes.subrange(0, 33));
}

/// Keeping a bond under a key leaves that one record, whatever was in the store.
pub proof fn one_bond_kept(records: Records, key: StoredAddr, bond: BondInformation)
    ensures
        all_applied(records, requests_under(key, bond)) == seq![
            (key.encoding(), bond.record().1.encoding()),
        ],
{
    let requests = requests_under(key, bond);
    reveal_with_fuel(all_applied, 3);
    assert(requests.drop_first().drop_first() =~= Seq::empty());
    assert(requests.drop_first()[0] == requests[1]);
    assert(all_applied(records, requests) =~= seq![
        (key.encoding(), bond.record().1.encoding()),
    ]);
}

/// What is kept under a key depends neither on the address in the bond nor on
/// whether the pairing was a bonding one: two bonds that differ only in those ask
/// the same of the store, and leave the same in it.
pub proof fn kept_by_key(
    records: Records,
    key: StoredAddr,
    one: BondInformation,
    other: BondInformation,
)
    requires
        one == (BondInformation {
            bd_addr: one.bd_addr,
            is_bonded: one.is_bonded,
            ..other
        }),
    ensures
        requests_under(key, one) == requests_under(key, other),
        all_applied(records, requests_under(key, one)) == all_applied(
            records,
            requests_under(key, other),
        ),
{
}

/// A bond that was kept under a key comes back after a restart with the key as
/// its address, marked as bonded, and otherwise as it was: this holds of every
/// bond whose identity resolving key is not zero, whatever was in the store
/// before, and whatever follows the bytes of the key and of the value where they
/// are read. `read` is the key that is read.
pub proof fn bond_survives_restart_under(
    records: Records,
    key: StoredAddr,
    bond: BondInformation,
    key_tail: Seq<u8>,
    value_tail: Seq<u8>,
    read: StoredAddr,
)
    requires
        bond.irk != Some(0u128),
        read.encoding() == (all_applied(records, requests_under(key, bond))[0].0
            + key_tail).subrange(0, ADDR_LEN as int),
    ensures
        ({
            let value = StoredBondInformation::decoding(
                all_applied(records, requests_under(key, bond))[0].1 + value_tail,
            );
            &&& value is Ok
            &&& BondInformation::of_record(read, value->Ok_0) == (BondInformation {
                bd_addr: key.0,
                is_bonded: true,
                ..bond
            })
        }),
{
    one_bond_kept(records, key, bond);
    addr_roundtrip(key, key_tail, read);
    bond_roundtrip(bond.record().1, value_tail);
}

/// A bond that was kept under its own address comes back after a restart as it
/// was, marked as bonded: this holds of every bond whose identity resolving key
/// is not zero, whatever was in the store before, and whatever follows the bytes
/// of the key and of the value where they are read. `read` is the key that is
/// read.
pub proof fn bond_survives_restart(
    records: Records,
    bond: BondInformation,
    key_tail: Seq<u8>,
    value_tail: Seq<u8>,
    read: StoredAddr,
)
    requires
        bond.irk != Some(0u128),
        read.encoding() == (all_applied(records, bond_requests(bond))[0].0 + key_tail).subrange(
            0,
            ADDR_LEN as int,
        ),
    ensures
        ({
            let value = StoredBondInformation::decoding(
                all_applied(records, bond_requests(bond))[0].1 + value_tail,
            );
            &&& value is Ok
            &&& BondInformation::of_record(read, value->Ok_0) == (BondInformation {
                is_bonded: true,
                ..bond
            })
        }),
{
    bond_survives_restart_under(records, bond.record().0, bond, key_tail, value_tail, read);
}

/// What keeping a bond leaves in the store, whatever was in it: one record, with
/// the bytes of the address as its key, and the digits of the bond's keys and its
/// security level as its value.
pub proof fn record_of_bond(bond: BondInformation, requests: [StoreRequest; 2], records: Records)
    requires
        call_ensures(write_bond, (&bond,), requests),
    ensures
        all_applied(records, requests@).len() == 1,
        all_applied(records, requests@)[0].0 == bond.bd_addr@,
        ({
            let value = all_applied(records, requests@)[0].1;
            &&& value.len() == 33
            &&& forall|i: int|
                0 <= i < 16 ==> (#[trigger] value[i]) == (bond.ltk as int / pow(256, i as nat))
                    % 256
            &&& bond.irk matches Some(key) ==> forall|i: int|
                16 <= i < 32 ==> (#[trigger] value[i]) == (key as int / pow(256, (i - 16) as nat))
                    % 256
            &&& bond.irk is None ==> forall|i: int| 16 <= i < 32 ==> (#[trigger] value[i]) == 0
            &&& bond.security_level == SecurityLevel::NoEncryption <==> value[32] == 0
            &&& bond.security_level == SecurityLevel::Encrypted <==> value[32] == 1
            &&& bond.security_level == SecurityLevel::EncryptedAuthenticated <==> value[32] == 2
        }),
{
    one_bond_kept(records, StoredAddr(bond.bd_addr), bond);
    bond_encoding_bytes(bond.record().1);
}

/// A request to remove every record leaves none; a request to add one leaves
/// those that were there, in their order, and the new one behind them.
pub proof fn records_after_request(request: StoreRequest, records: Records)
    ensures
        request is EraseAll ==> request.applied(records).len() == 0,
        request matches StoreRequest::StoreItem { key, value } ==> {
            &&& request.applied(records).len() == records.len() + 1
            &&& forall|i: int|
                0 <= i < records.len() ==> (#[trigger] request.applied(records)[i]) == records[i]
            &&& request.applied(records).last().0 == key.0@
            &&& request.applied(records).last().1 == value.encoding()
        },
{
}

/// Keys that are read alike from two buffers have the same bytes there.
pub proof fn addr_read_apart(
    one: &[u8],
    other: &[u8],
    read: Result<(StoredAddr, usize), SerializationError>,
)
    requires
        one@.len() >= 6,
        other@.len() >= 6,
        call_ensures(StoredAddr::deserialize_from, (one,), read),
        call_ensures(StoredAddr::deserialize_from, (other,), read),
    ensures
        one@.subrange(0, 6) == other@.subrange(0, 6),
{
}

/// Of two bonds that are kept under one key, those that differ in a key or in the
/// security level ask different things of the store.
pub proof fn requests_tell_bonds_apart(
    key: StoredAddr,
    one: BondInformation,
    other: BondInformation,
    requests: [StoreRequest; 2],
)
    requires
        call_ensures(bond_requests_under, (key, &one), requests),
        call_ensures(bond_requests_under, (key, &other), requests),
    ensures
        one.ltk == other.ltk,
        one.irk == other.irk,
        one.security_level == other.security_level,
        requests@[0] is EraseAll,
        requests@[1] matches StoreRequest::StoreItem { key: kept, value: _ } && kept == key,
{
    assert(requests@[1] is StoreItem);
    assert(requests@[1]->value.ltk == one.ltk && requests@[1]->value.ltk == other.ltk);
    assert(requests@[1]->value.irk == one.irk && requests@[1]->value.irk == other.irk);
}

} // verus!
