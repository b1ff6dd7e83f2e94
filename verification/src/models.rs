//! Messages that leave a session.

use vstd::prelude::*;

verus! {

/// A message for the client.
#[derive(Debug)]
pub enum TranscriptionResponse {
    /// Text recognised so far in an utterance that goes on.
    Partial(String),
    /// Text of a finished utterance.
    Final(String),
    /// The phase the session has entered.
    Status(String),
}

/// What a step of processing hands to the layer that talks to the client.
pub enum ProcessingEvent {
    /// An utterance began.
    SpeechStart,
    /// The text of an utterance is final.
    TransciptComplete(String),
    /// The text of an utterance was updated.
    TranscriptPartial(String),
    /// Nothing to report.
    Nothing,
}

impl TranscriptionResponse {
    /// Name of the variant, as it tags the message on the wire.
    pub open spec fn tag(self) -> Seq<char> {
        match self {
            TranscriptionResponse::Partial(_) => "Partial"@,
            TranscriptionResponse::Final(_) => "Final"@,
            TranscriptionResponse::Status(_) => "Status"@,
        }
    }

    /// The text the message carries.
    pub open spec fn body(self) -> Seq<char> {
        match self {
            TranscriptionResponse::Partial(text) => text@,
            TranscriptionResponse::Final(text) => text@,
            TranscriptionResponse::Status(text) => text@,
        }
    }
}

} // verus!
