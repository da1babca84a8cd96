//! Construction of the classic CAN data frames the monitor transmits.
use vstd::prelude::*;
use socketcan::{CanFrame, StandardId};

verus! {

#[verifier::external_type_specification]
#[verifier::external_body]
pub struct ExStandardId(StandardId);

#[verifier::external_type_specification]
#[verifier::external_body]
pub struct ExCanFrame(CanFrame);

/// The largest 11-bit CAN identifier.
pub const MAX_STANDARD_ID: u32 = 0x7FF;

/// The largest payload of a classic CAN data frame.
pub const MAX_PAYLOAD_LEN: usize = 8;

/// What `embedded_can::StandardId::new` returns for a raw identifier.
pub uninterp spec fn standard_id_of(raw: u16) -> Option<StandardId>;

/// What `<socketcan::CanFrame as embedded_can::Frame>::new` returns for a
/// standard identifier and a payload.
pub uninterp spec fn data_frame_of(id: StandardId, data: Seq<u8>) -> Option<CanFrame>;

/// Calls `embedded_can::StandardId::new`. Trusted: its source returns
/// `Some` exactly when `raw <= 0x7FF`; the identifier it holds is named by
/// `standard_id_of`.
#[verifier::external_body]
fn new_standard_id(raw: u16) -> (res: Option<StandardId>)
    ensures
        res == standard_id_of(raw),
        res is Some <==> raw <= 0x7FF,
{
    StandardId::new(raw)
}

/// Calls `<socketcan::CanFrame as embedded_can::Frame>::new`. Trusted: its
/// source builds a data frame, and returns `Some`, exactly when the payload
/// holds at most 8 bytes; the frame is named by `data_frame_of`.
#[verifier::external_body]
fn new_data_frame(id: StandardId, data: &[u8]) -> (res: Option<CanFrame>)
    ensures
        res == data_frame_of(id, data@),
        res is Some <==> data@.len() <= 8,
{
    <CanFrame as socketcan::EmbeddedFrame>::new(id, data)
}

/// Builds the data frame with the standard identifier `message_id` and the
/// payload `payload`, as the monitor does for the cell-control message it
/// sends when it starts and stops listening.
pub fn control_frame(message_id: u32, payload: &[u8]) -> (frame: CanFrame)
    requires
        message_id <= MAX_STANDARD_ID,
        payload@.len() <= MAX_PAYLOAD_LEN,
    ensures
        Some(frame) == data_frame_of(standard_id_of(message_id as u16).unwrap(), payload@),
{
    let raw: u16 = message_id as u16;
    let id = new_standard_id(raw).unwrap();
    new_data_frame(id, payload).unwrap()
}

} // verus!
