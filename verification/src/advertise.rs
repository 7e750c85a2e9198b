//! What the device advertises while it waits for a phone.

use trouble_host::advertise::{AdStructure, BR_EDR_NOT_SUPPORTED, LE_GENERAL_DISCOVERABLE};
use vstd::prelude::*;
use vstd::utf8::{encode_utf8, is_ascii_chars_encode_utf8};

verus! {

/// The name under which the device is found.
pub const DEVICE_NAME: &'static str = "Widget";

/// Longest advertising payload, in bytes.
pub const ADV_DATA_MAX: usize = 31;

/// The payload that holds the flags of a device and its complete name: each of
/// the two is preceded by a length, which counts the kind and the content, and
/// by its kind.
pub open spec fn flags_and_name(flags: u8, name: Seq<u8>) -> Seq<u8> {
    seq![0x02u8, 0x01, flags, ((name.len() + 1) % 256) as u8, 0x09] + name
}

/// Calls `AdStructure::encode_slice` of `trouble_host` on the flags of a device
/// followed by its complete name. Taken on trust: it succeeds exactly when the
/// payload fits in `dest`, writes it to the front and leaves the rest of `dest`,
/// and returns its length. Of the content of `dest` after a failure nothing is
/// said.
#[verifier::external_body]
fn encode_flags_and_name(flags: u8, name: &[u8], dest: &mut [u8]) -> (len: Option<usize>)
    ensures
        len is Some <==> flags_and_name(flags, name@).len() <= old(dest)@.len(),
        len matches Some(len) ==> {
            let payload = flags_and_name(flags, name@);
            &&& len == payload.len()
            &&& final(dest)@ == payload + old(dest)@.subrange(
                payload.len() as int,
                old(dest)@.len() as int,
            )
        },
        final(dest)@.len() == old(dest)@.len(),
{
    AdStructure::encode_slice(
        &[AdStructure::Flags(flags), AdStructure::CompleteLocalName(name)],
        dest,
    ).ok()
}

/// Reads the constant `LE_GENERAL_DISCOVERABLE` of `trouble_host`. Taken on
/// trust: its value.
#[verifier::external_body]
fn le_general_discoverable() -> (flag: u8)
    ensures
        flag == 0x02,
{
    LE_GENERAL_DISCOVERABLE
}

/// Reads the constant `BR_EDR_NOT_SUPPORTED` of `trouble_host`. Taken on trust:
/// its value.
#[verifier::external_body]
fn br_edr_not_supported() -> (flag: u8)
    ensures
        flag == 0x04,
{
    BR_EDR_NOT_SUPPORTED
}

/// An advertising payload: the first `len` bytes of `data`.
pub struct AdvertisingData {
    pub data: [u8; 31],
    pub len: usize,
}

/// The payload that the device advertises: it can be found by any phone, speaks
/// Bluetooth LE only, and gives its name.
pub fn advertising_data() -> (payload: AdvertisingData)
    ensures
        payload.data@.subrange(0, payload.len as int) == flags_and_name(
            0x06,
            encode_utf8(DEVICE_NAME@),
        ),
        payload.data@.subrange(0, payload.len as int) == seq![
            0x02u8, 0x01, 0x06, 0x07, 0x09, 0x57, 0x69, 0x64, 0x67, 0x65, 0x74,
        ],
        payload.len == 11,
        forall|i: int| payload.len <= i < ADV_DATA_MAX ==> payload.data@[i] == 0,
{
    let mut data: [u8; 31] = [0u8; 31];
    let flags: u8 = le_general_discoverable() | br_edr_not_supported();
    assert(0x02u8 | 0x04u8 == 0x06u8) by (bit_vector);
    proof {
        reveal_strlit("Widget");
        is_ascii_chars_encode_utf8(DEVICE_NAME@);
    }
    let len: usize = encode_flags_and_name(flags, DEVICE_NAME.as_bytes(), &mut data).unwrap();
    AdvertisingData { data, len }
}

/// An advertising payload is at most as long as its buffer.
pub proof fn payload_can_fill_buffer(payload: AdvertisingData)
    ensures
        payload.data@.len() == ADV_DATA_MAX,
{
}

} // verus!
