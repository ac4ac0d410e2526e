//! Decoding of the two event kinds that a message dispatch emits.
use crate::abi::{
    abi_bytes, abi_decode_address, abi_decode_bytes, abi_decode_u32, address_from_word,
    low_address, word_u32,
};
use crate::types::{DecodeError, DispatchEvent, DispatchEventView, RawLog, RawLogView};
use vstd::prelude::*;

verus! {

/// What a dispatch log decodes to: sender from topic 1, destination domain
/// from topic 2, receiver from topic 3, and the message from the payload.
pub open spec fn decode_dispatch_spec(log: RawLogView) -> Result<DispatchEventView, DecodeError> {
    if log.topics.len() < 4 {
        Err(DecodeError::MissingTopic)
    } else {
        match abi_bytes(log.data) {
            None => Err(DecodeError::Malformed),
            Some(message) => Ok(
                DispatchEventView {
                    sender: low_address(log.topics[1]),
                    destination: word_u32(log.topics[2]),
                    receiver: low_address(log.topics[3]),
                    message,
                },
            ),
        }
    }
}

/// What a dispatch-id log decodes to: topic 1, as it stands.
pub open spec fn decode_dispatch_id_spec(log: RawLogView) -> Result<Seq<u8>, DecodeError> {
    if log.topics.len() < 2 {
        Err(DecodeError::MissingTopic)
    } else {
        Ok(log.topics[1])
    }
}

/// Decodes a log of the dispatch kind.
pub fn decode_dispatch(log: &RawLog) -> (r: Result<DispatchEvent, DecodeError>)
    ensures
        match r {
            Ok(ev) => decode_dispatch_spec(log@) == Ok::<DispatchEventView, DecodeError>(ev@),
            Err(e) => decode_dispatch_spec(log@) == Err::<DispatchEventView, DecodeError>(e),
        },
{
    if log.topics.len() < 4 {
        return Err(DecodeError::MissingTopic);
    }
    let sender = match abi_decode_address(log.topics[1]) {
        Ok(a) => a,
        Err(_) => return Err(DecodeError::Malformed),
    };
    let message = match abi_decode_bytes(&log.data) {
        Ok(m) => m,
        Err(_) => return Err(DecodeError::Malformed),
    };
    let receiver = address_from_word(&log.topics[3]);
    let destination = match abi_decode_u32(log.topics[2]) {
        Ok(d) => d,
        Err(_) => return Err(DecodeError::Malformed),
    };
    let ev = DispatchEvent { sender, destination, receiver, message };
    assert(ev@ == decode_dispatch_spec(log@)->Ok_0);
    Ok(ev)
}

/// Decodes a log of the dispatch-id kind into the message identifier.
pub fn decode_dispatch_id(log: &RawLog) -> (r: Result<[u8; 32], DecodeError>)
    ensures
        match r {
            Ok(id) => decode_dispatch_id_spec(log@) == Ok::<Seq<u8>, DecodeError>(id@),
            Err(e) => decode_dispatch_id_spec(log@) == Err::<Seq<u8>, DecodeError>(e),
        },
{
    if log.topics.len() < 2 {
        return Err(DecodeError::MissingTopic);
    }
    Ok(log.topics[1])
}

} // verus!
