//! Events on their way to the daemon.
//!
//! Events are queued without waiting, and one that finds the queue full is
//! dropped: losing a window update is better than blocking the compositor.

use vstd::prelude::*;

use crate::codec::encode_frame;
use crate::messages::{Event, EventBody};
#[allow(unused_imports)]
use crate::codec::{framed, MAX_FRAME_SIZE};

verus! {

/// How many events wait at most.
pub const QUEUE_CAPACITY: usize = 256;

/// The frame of an event. `to_msgpack` serialises it. An event that cannot be
/// framed is dropped.
pub fn event_frame<F: FnOnce(&Event) -> Result<Vec<u8>, String>>(body: EventBody, to_msgpack: F) -> (r:
    Option<Vec<u8>>)
    requires
        forall|e: &Event| #[trigger] call_requires(to_msgpack, (e,)),
    ensures
        exists|encoded: Result<Vec<u8>, String>| #[trigger]
            call_ensures(to_msgpack, (&Event { id: 0, body },), encoded) && match encoded {
                Ok(payload) => if payload@.len() <= MAX_FRAME_SIZE {
                    r matches Some(frame) && frame@ == framed(payload@)
                } else {
                    r is None
                },
                Err(_) => r is None,
            },
{
    let event = Event::new(body);
    let mut frame: Vec<u8> = Vec::new();
    match encode_frame(&event, to_msgpack, &mut frame) {
        Ok(_) => Some(frame),
        Err(_) => None,
    }
}

/// What came of handling one event.
#[derive(Debug, Clone, Copy, PartialEq, Eq, Structural)]
pub enum SendOutcome {
    /// It could not be framed and was dropped.
    Dropped,
    Written,
    /// The daemon is gone.
    WriteFailed,
}

/// Whether to go on with the next event.
pub fn goes_on(outcome: SendOutcome) -> (r: bool)
    ensures
        r == (outcome != SendOutcome::WriteFailed),
{
    outcome != SendOutcome::WriteFailed
}

/// Events are sent on until the daemon is gone: one that was dropped does not stop
/// the next.
pub proof fn dropped_events_stop_nothing(outcome: SendOutcome, r: bool)
    requires
        call_ensures(goes_on, (outcome,), r),
    ensures
        outcome == SendOutcome::Dropped || outcome == SendOutcome::Written ==> r,
        outcome == SendOutcome::WriteFailed ==> !r,
{
}

/// What is sent of an event is the frame of its serialised form, under number
/// zero; it is sent exactly where it has at most twenty mebibytes.
pub proof fn events_are_sent_framed<F: FnOnce(&Event) -> Result<Vec<u8>, String>>(
    body: EventBody,
    to_msgpack: F,
    r: Option<Vec<u8>>,
)
    requires
        call_ensures(event_frame::<F>, (body, to_msgpack), r),
    ensures
        exists|encoded: Result<Vec<u8>, String>| #[trigger]
            call_ensures(to_msgpack, (&Event { id: 0, body },), encoded) && (r is Some
                <==> encoded is Ok && encoded->Ok_0@.len() <= 20 * 1024 * 1024) && (r matches Some(
                f,
            ) ==> f@.len() == encoded->Ok_0@.len() + 4 && f@.skip(4) == encoded->Ok_0@),
{
    let encoded = choose|encoded: Result<Vec<u8>, String>| #[trigger]
        call_ensures(to_msgpack, (&Event { id: 0, body },), encoded) && match encoded {
            Ok(payload) => if payload@.len() <= MAX_FRAME_SIZE {
                r matches Some(frame) && frame@ == framed(payload@)
            } else {
                r is None
            },
            Err(_) => r is None,
        };
    if let Some(f) = r {
        assert(f@.skip(4) =~= encoded->Ok_0@);
    }
}

} // verus!
