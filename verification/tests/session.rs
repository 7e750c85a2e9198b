use media_widget::bond::{BondInformation, SecurityLevel};
use media_widget::session::{
    encryption_step, on_connection_event, ConnectionAction, ConnectionEvent, EncryptionStep,
};

#[test]
fn lost_connection_ends_the_session() {
    assert_eq!(
        on_connection_event(ConnectionEvent::Disconnected),
        ConnectionAction::EndSession
    );
}

#[test]
fn pairing_without_a_bond_ends_the_session() {
    assert_eq!(
        on_connection_event(ConnectionEvent::PairingComplete { bond: None }),
        ConnectionAction::EndSession
    );
}

#[test]
fn bond_is_kept() {
    let bond = BondInformation {
        bd_addr: [6, 5, 4, 3, 2, 1],
        irk: None,
        ltk: 42,
        security_level: SecurityLevel::Encrypted,
        is_bonded: true,
    };
    assert_eq!(
        on_connection_event(ConnectionEvent::PairingComplete { bond: Some(bond) }),
        ConnectionAction::StoreBond { bond }
    );
}

#[test]
fn requests_are_answered() {
    assert_eq!(on_connection_event(ConnectionEvent::Gatt), ConnectionAction::AcceptRequest);
}

#[test]
fn other_events_are_ignored() {
    assert_eq!(
        on_connection_event(ConnectionEvent::PairingFailed),
        ConnectionAction::Ignore
    );
    assert_eq!(on_connection_event(ConnectionEvent::Other), ConnectionAction::Ignore);
}

#[test]
fn tasks_wait_for_encryption() {
    assert_eq!(encryption_step(SecurityLevel::NoEncryption), EncryptionStep::Sleep(2000));
    assert_eq!(encryption_step(SecurityLevel::Encrypted), EncryptionStep::StartTasks);
    assert_eq!(
        encryption_step(SecurityLevel::EncryptedAuthenticated),
        EncryptionStep::StartTasks
    );
}
