//! What happens on a connection besides the media tasks.

use vstd::prelude::*;

use crate::bond::{
    addr_roundtrip, all_applied, bond_roundtrip, one_bond_kept, restored_bond, write_bond,
    BondInformation, Records, SecurityLevel, SerializationError, StoreRequest, StoredAddr,
    StoredBondInformation,
};

verus! {

/// How long to wait before seeing again whether the connection is encrypted, in
/// milliseconds.
pub const ENCRYPTION_WAIT_MS: u64 = 2000;

/// What the Bluetooth host reports of a connection.
#[derive(Debug, Clone, Copy, PartialEq, Eq)]
pub enum ConnectionEvent {
    Disconnected,
    /// The phone asks for an attribute of the device.
    Gatt,
    /// The phone has paired. There is a bond if both sides keep their keys.
    PairingComplete { bond: Option<BondInformation> },
    PairingFailed,
    Other,
}

/// What is to be done about an event.
#[derive(Debug, Clone, Copy, PartialEq, Eq)]
pub enum ConnectionAction {
    /// Give up the connection and advertise again.
    EndSession,
    /// Answer the phone's request.
    AcceptRequest,
    /// Keep the bond in flash.
    StoreBond { bond: BondInformation },
    Ignore,
}

/// What is to be done about an event: a bond is kept, a connection that is
/// lost, or on which the phone paired without a bond, is given up.
pub open spec fn reaction(event: ConnectionEvent) -> ConnectionAction {
    match event {
        ConnectionEvent::Disconnected => ConnectionAction::EndSession,
        ConnectionEvent::Gatt => ConnectionAction::AcceptRequest,
        ConnectionEvent::PairingComplete { bond: Some(bond) } => ConnectionAction::StoreBond {
            bond,
        },
        ConnectionEvent::PairingComplete { bond: None } => ConnectionAction::EndSession,
        ConnectionEvent::PairingFailed => ConnectionAction::Ignore,
        ConnectionEvent::Other => ConnectionAction::Ignore,
    }
}

/// What is to be done about an event.
pub fn on_connection_event(event: ConnectionEvent) -> (action: ConnectionAction)
    ensures
        action == reaction(event),
        event == ConnectionEvent::Disconnected ==> action == ConnectionAction::EndSession,
        event == ConnectionEvent::Gatt ==> action == ConnectionAction::AcceptRequest,
        event matches ConnectionEvent::PairingComplete { bond: Some(bond) } ==> action == (
        ConnectionAction::StoreBond { bond }),
        event == (ConnectionEvent::PairingComplete { bond: None }) ==> action
            == ConnectionAction::EndSession,
        event == ConnectionEvent::PairingFailed ==> action == ConnectionAction::Ignore,
        event == ConnectionEvent::Other ==> action == ConnectionAction::Ignore,
{
    match event {
        ConnectionEvent::Disconnected => ConnectionAction::EndSession,
        ConnectionEvent::Gatt => ConnectionAction::AcceptRequest,
        ConnectionEvent::PairingComplete { bond } => match bond {
            Some(bond) => ConnectionAction::StoreBond { bond },
            None => ConnectionAction::EndSession,
        },
        ConnectionEvent::PairingFailed => ConnectionAction::Ignore,
        ConnectionEvent::Other => ConnectionAction::Ignore,
    }
}

/// What is to be done before the media tasks run.
#[derive(Debug, Clone, Copy, PartialEq, Eq, Structural)]
pub enum EncryptionStep {
    /// Start the media tasks.
    StartTasks,
    /// See again after so many milliseconds.
    Sleep(u64),
}

/// The media tasks start once the connection is encrypted.
pub fn encryption_step(level: SecurityLevel) -> (step: EncryptionStep)
    ensures
        step == EncryptionStep::Sleep(2000) <==> level == SecurityLevel::NoEncryption,
        step == EncryptionStep::StartTasks <==> level == SecurityLevel::Encrypted || level
            == SecurityLevel::EncryptedAuthenticated,
        step == if level == SecurityLevel::NoEncryption {
            EncryptionStep::Sleep(ENCRYPTION_WAIT_MS)
        } else {
            EncryptionStep::StartTasks
        },
{
    if level.encrypted() {
        EncryptionStep::StartTasks
    } else {
        EncryptionStep::Sleep(ENCRYPTION_WAIT_MS)
    }
}

/// A bond is kept exactly as it was made, in each of its parts, when the phone
/// has paired.
pub proof fn paired_bond_is_kept(bond: BondInformation, action: ConnectionAction)
    requires
        call_ensures(
            on_connection_event,
            (ConnectionEvent::PairingComplete { bond: Some(bond) },),
            action,
        ),
    ensures
        action matches ConnectionAction::StoreBond { bond: kept } && {
            &&& kept.bd_addr == bond.bd_addr
            &&& kept.irk == bond.irk
            &&& kept.ltk == bond.ltk
            &&& kept.security_level == bond.security_level
            &&& kept.is_bonded == bond.is_bonded
        },
{
}

/// A bond is kept for no other event, and no other bond than the one of the
/// event.
pub proof fn kept_bond_was_paired(
    event: ConnectionEvent,
    action: ConnectionAction,
    kept: BondInformation,
)
    requires
        call_ensures(on_connection_event, (event,), action),
        action == (ConnectionAction::StoreBond { bond: kept }),
    ensures
        event == (ConnectionEvent::PairingComplete { bond: Some(kept) }),
{
}

/// The session ends when the phone is gone, or has paired without a bond, and
/// then only; a request of the phone is accepted, and nothing else is.
pub proof fn session_ends_without_bond(event: ConnectionEvent, action: ConnectionAction)
    requires
        call_ensures(on_connection_event, (event,), action),
    ensures
        action is EndSession <==> event is Disconnected || event == (
        ConnectionEvent::PairingComplete { bond: None }),
        action is AcceptRequest <==> event is Gatt,
        action is Ignore <==> event is PairingFailed || event is Other,
{
}

/// A bond that was made when the phone paired comes back after a restart, in each
/// of its parts and marked as bonded, whatever was in the store before, and
/// whatever follows the bytes of the key and of the value where they are read:
/// this holds of every bond whose identity resolving key is not zero.
pub proof fn paired_bond_survives_restart(
    bond: BondInformation,
    action: ConnectionAction,
    requests: [StoreRequest; 2],
    records: Records,
    key_bytes: &[u8],
    key_tail: Seq<u8>,
    key: Result<(StoredAddr, usize), SerializationError>,
    value_bytes: &[u8],
    value_tail: Seq<u8>,
    value: Result<(StoredBondInformation, usize), SerializationError>,
    restored: Option<BondInformation>,
)
    requires
        bond.irk != Some(0u128),
        call_ensures(
            on_connection_event,
            (ConnectionEvent::PairingComplete { bond: Some(bond) },),
            action,
        ),
        call_ensures(write_bond, (&action->bond,), requests),
        key_bytes@ == all_applied(records, requests@)[0].0 + key_tail,
        value_bytes@ == all_applied(records, requests@)[0].1 + value_tail,
        call_ensures(StoredAddr::deserialize_from, (key_bytes,), key),
        call_ensures(StoredBondInformation::deserialize_from, (value_bytes,), value),
        call_ensures(restored_bond, (Some((key->Ok_0.0, value->Ok_0.0)),), restored),
    ensures
        action is StoreBond,
        all_applied(records, requests@).len() == 1,
        key is Ok,
        value is Ok,
        restored matches Some(restored) && {
            &&& restored.bd_addr == bond.bd_addr
            &&& restored.irk == bond.irk
            &&& restored.ltk == bond.ltk
            &&& restored.security_level == bond.security_level
            &&& restored.is_bonded
        },
{
    let addr = StoredAddr(bond.bd_addr);
    one_bond_kept(records, addr, bond);
    crate::bond::encoding_lengths(addr, bond.record().1);
    addr_roundtrip(addr, key_tail, key->Ok_0.0);
    bond_roundtrip(bond.record().1, value_tail);
}

} // verus!
