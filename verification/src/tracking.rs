//! Keeping the latest message of every station that is heard from.
use vstd::prelude::*;

use crate::decoded::{message_station_id, V2xMessage};
use crate::decoding::{decode_v2x, spec_decode_v2x};
use crate::its::{decoded_cam_basic, decoded_cam_vehicle};
use crate::decoder_input::{decoder_may_overrun, INPUT_ENDS_AFTER_KEY};
use crate::error::V2xError;
use crate::tracked_objects::{with_entry, TrackedObject, TrackedObjects};

verus! {

/// `after` is `before` with `message` stored under `id`, seen at a moment no earlier than
/// `not_before`.
pub open spec fn stores_message(
    before: Map<u32, TrackedObject<V2xMessage>>,
    after: Map<u32, TrackedObject<V2xMessage>>,
    id: u32,
    message: V2xMessage,
    not_before: u128,
) -> bool {
    exists|now: u128| now >= not_before && after == with_entry(before, id, message, now)
}

/// Decodes a received packet and, when it holds a message, records it as the latest one of
/// its station and returns that station's id. A packet that cannot be decoded, or that is
/// kept away from the decoder, gives the error `decode_v2x` gives and changes nothing.
pub fn ingest_packet(objects: &mut TrackedObjects<V2xMessage>, data: &[u8]) -> (r: Result<u32, V2xError>)
    ensures
        decoder_may_overrun(data@) ==> {
            &&& r matches Err(V2xError::Decode(d)) && d@ == INPUT_ENDS_AFTER_KEY@
            &&& final(objects)@ == old(objects)@
        },
        !decoder_may_overrun(data@) ==> match decoded_cam_basic(data@) {
            Err(detail) => {
                &&& r matches Err(V2xError::Decode(d)) && d@ == detail
                &&& final(objects)@ == old(objects)@
            },
            Ok(basic) => match spec_decode_v2x(basic, decoded_cam_vehicle(data@)) {
                Ok(message) => {
                    &&& r == Ok::<u32, V2xError>(message_station_id(message))
                    &&& stores_message(old(objects)@, final(objects)@, message_station_id(message), message, old(objects).latest())
                    &&& exists|now: u128|
                        old(objects).clock_moment(now) && final(objects).latest() == now
                            && final(objects)@ == with_entry(old(objects)@, message_station_id(message), message, now)
                },
                Err(e) => {
                    &&& r == Err::<u32, V2xError>(e)
                    &&& final(objects)@ == old(objects)@
                },
            },
        },
{
    match decode_v2x(data) {
        Ok(message) => {
            let id = message.station_id();
            let now = objects.now();
            objects.insert_at(id, message, now);
            assert(stores_message(old(objects)@, objects@, id, message, old(objects).latest()));
            assert(old(objects).clock_moment(now) && objects.latest() == now);
            Ok(id)
        },
        Err(e) => Err(e),
    }
}

} // verus!
