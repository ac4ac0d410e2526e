//! Records that flow through the indexing pipeline.
use vstd::prelude::*;

verus! {

/// A log entry as the chain reports it: topic words, the data payload, and
/// the flag that a reorganisation sets on a retracted entry.
pub struct RawLog {
    pub topics: Vec<[u8; 32]>,
    pub data: Vec<u8>,
    pub removed: Option<bool>,
}

/// A log entry as values: each topic word as a sequence of bytes.
pub struct RawLogView {
    pub topics: Seq<Seq<u8>>,
    pub data: Seq<u8>,
    pub removed: Option<bool>,
}

impl View for RawLog {
    type V = RawLogView;

    open spec fn view(&self) -> RawLogView {
        RawLogView {
            topics: self.topics@.map_values(|t: [u8; 32]| t@),
            data: self.data@,
            removed: self.removed,
        }
    }
}

/// Views of each log of a sequence.
pub open spec fn log_views(logs: Seq<RawLog>) -> Seq<RawLogView> {
    logs.map_values(|l: RawLog| l@)
}

/// A decoded dispatch event: who sent what to which domain and receiver.
pub struct DispatchEvent {
    pub sender: [u8; 20],
    pub destination: u32,
    pub receiver: [u8; 20],
    pub message: Vec<u8>,
}

/// A dispatch event as values.
pub struct DispatchEventView {
    pub sender: Seq<u8>,
    pub destination: u32,
    pub receiver: Seq<u8>,
    pub message: Seq<u8>,
}

impl View for DispatchEvent {
    type V = DispatchEventView;

    open spec fn view(&self) -> DispatchEventView {
        DispatchEventView {
            sender: self.sender@,
            destination: self.destination,
            receiver: self.receiver@,
            message: self.message@,
        }
    }
}

/// A message record: a dispatch event joined with its identifier and the
/// chain it was sent from.
pub struct Dispatch {
    pub id: [u8; 32],
    pub origin: u32,
    pub sender: [u8; 20],
    pub destination: u32,
    pub receiver: [u8; 20],
    pub message: Vec<u8>,
}

/// A message record as values.
pub struct DispatchView {
    pub id: Seq<u8>,
    pub origin: u32,
    pub sender: Seq<u8>,
    pub destination: u32,
    pub receiver: Seq<u8>,
    pub message: Seq<u8>,
}

impl View for Dispatch {
    type V = DispatchView;

    open spec fn view(&self) -> DispatchView {
        DispatchView {
            id: self.id@,
            origin: self.origin,
            sender: self.sender@,
            destination: self.destination,
            receiver: self.receiver@,
            message: self.message@,
        }
    }
}

/// Views of each record of a sequence.
pub open spec fn dispatch_views(ds: Seq<Dispatch>) -> Seq<DispatchView> {
    ds.map_values(|d: Dispatch| d@)
}

impl Dispatch {
    /// A copy of this record.
    pub fn duplicate(&self) -> (r: Dispatch)
        ensures
            r@ == self@,
    {
        let message = self.message.clone();
        assert(message@ =~= self.message@);
        Dispatch {
            id: self.id,
            origin: self.origin,
            sender: self.sender,
            destination: self.destination,
            receiver: self.receiver,
            message,
        }
    }
}

/// Why a log entry could not be decoded.
#[derive(Clone, Copy, Debug, PartialEq, Eq, Structural)]
pub enum DecodeError {
    /// The entry has fewer topics than its kind carries.
    MissingTopic,
    /// A topic or the payload does not hold what its kind encodes.
    Malformed,
}

} // verus!
