use media_widget::advertise::{advertising_data, DEVICE_NAME};
use trouble_host::advertise::{AdStructure, BR_EDR_NOT_SUPPORTED, LE_GENERAL_DISCOVERABLE};

#[test]
fn payload_holds_flags_and_name() {
    let payload = advertising_data();
    assert_eq!(payload.len, 11);
    assert_eq!(
        payload.data[..payload.len],
        [0x02, 0x01, 0x06, 0x07, 0x09, b'W', b'i', b'd', b'g', b'e', b't']
    );
    assert_eq!(payload.data[payload.len..], [0; 20]);
}

#[test]
fn payload_is_what_the_host_encodes() {
    let mut data = [0u8; 31];
    let len = AdStructure::encode_slice(
        &[
            AdStructure::Flags(LE_GENERAL_DISCOVERABLE | BR_EDR_NOT_SUPPORTED),
            AdStructure::CompleteLocalName(b"Widget"),
        ],
        &mut data,
    )
    .unwrap();
    let payload = advertising_data();
    assert_eq!((payload.data, payload.len), (data, len));
}

#[test]
fn name_is_widget() {
    assert_eq!(DEVICE_NAME, "Widget");
}
