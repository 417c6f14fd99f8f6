//! Raw-transmission framing.
//!
//! Besides the LCD protocol proper, the expander can be driven with bare
//! marker-delimited payloads — useful when watching the bus on an
//! oscilloscope: a frame is a start marker with every pin high, the
//! payload bytes in order, and an end marker with every pin low.

use vstd::prelude::*;

verus! {

/// Start-of-frame marker: all expander pins high.
pub const MESSAGE_START: u8 = 0xFF;

/// End-of-frame marker: all expander pins low.
pub const MESSAGE_END: u8 = 0x00;

/// A framed payload: the start marker, the payload unchanged and in
/// order, and the end marker.
pub open spec fn framed(payload: Seq<u8>) -> Seq<u8> {
    seq![MESSAGE_START] + payload + seq![MESSAGE_END]
}

/// Wraps a payload in the start and end markers for raw transmission.
pub fn frame_message(payload: &[u8]) -> (frame: Vec<u8>)
    ensures
        frame@ == framed(payload@),
{
    let mut frame: Vec<u8> = Vec::new();
    frame.push(MESSAGE_START);
    let mut i: usize = 0;
    while i < payload.len()
        invariant
            i <= payload@.len(),
            frame@ == seq![MESSAGE_START] + payload@.take(i as int),
        decreases payload@.len() - i,
    {
        frame.push(payload[i]);
        proof {
            assert(payload@.take(i + 1) =~= payload@.take(i as int).push(payload@[i as int]));
        }
        i = i + 1;
    }
    frame.push(MESSAGE_END);
    proof {
        assert(frame@ =~= framed(payload@));
    }
    frame
}

} // verus!
