//! The decisions of one connection's loop: what to do with each inbound
//! frame, and what to tell the client about each classified batch. The
//! loop itself, which waits on the transport and measures each batch's
//! energy, belongs to the caller.

use vstd::prelude::*;
use vstd::string::StringExecFns;
use crate::codec::{bytes_to_f32, decoded, encode, message_text, needs_no_escape, quoted, EncodeError};
use crate::models::TranscriptionResponse;
use crate::vad::{VadConfig, VadModel, VadState, VadStatus};

verus! {

/// An inbound frame, as the transport delivered it.
pub enum Frame {
    /// Audio: little-endian binary32 samples.
    Binary(Vec<u8>),
    /// The client closes the connection.
    Close,
    /// Any other kind of frame.
    Other,
}

/// What the loop has to do after a frame.
pub enum Demand {
    /// Measure the RMS energy of this batch and hand it to `classify`.
    Measure(Vec<u32>),
    /// Wait for the next frame.
    Skip,
    /// Leave the loop: the session is over.
    Stop,
}

/// The phase a classification announces to the client, if it announces one:
/// the two edges of an utterance do, the steady states do not.
pub open spec fn phase_of(status: VadStatus) -> Option<Seq<char>> {
    match status {
        VadStatus::SpeechStarted => Some("listening"@),
        VadStatus::SpeechEnded => Some("processing"@),
        _ => None,
    }
}

/// Whether `event` is what a classification announces.
pub open spec fn announces(event: Option<TranscriptionResponse>, status: VadStatus) -> bool {
    match phase_of(status) {
        Some(phase) => event matches Some(TranscriptionResponse::Status(text)) && text@ == phase,
        None => event is None,
    }
}

/// The message that a classification sends to the client, if any.
pub fn reaction(status: VadStatus) -> (event: Option<TranscriptionResponse>)
    ensures
        announces(event, status),
{
    match status {
        VadStatus::SpeechStarted => Some(
            TranscriptionResponse::Status(String::from_str("listening")),
        ),
        VadStatus::SpeechEnded => Some(
            TranscriptionResponse::Status(String::from_str("processing")),
        ),
        VadStatus::Speaking => None,
        VadStatus::SilenceDuringSpeech => None,
        VadStatus::Silence => None,
    }
}

/// The text that a classification puts on the wire, if it puts any.
pub open spec fn wire_text(status: VadStatus) -> Option<Seq<char>> {
    match status {
        VadStatus::SpeechStarted => Some("{\"Status\":\"listening\"}"@),
        VadStatus::SpeechEnded => Some("{\"Status\":\"processing\"}"@),
        _ => None,
    }
}

/// Whether `out` is what a classification sends: the text of its
/// announcement where it announces a phase, nothing where it does not.
pub open spec fn sends(out: Result<Option<String>, EncodeError>, status: VadStatus) -> bool {
    match wire_text(status) {
        Some(wire) => out matches Ok(Some(text)) && text@ == wire,
        None => out == Ok::<Option<String>, EncodeError>(None),
    }
}

/// The text on the wire is the announced phase in its envelope, and no
/// phase name holds a character that JSON escapes.
pub proof fn lemma_wire_text_is_enveloped_phase(status: VadStatus)
    ensures
        match phase_of(status) {
            Some(phase) => needs_no_escape(phase) && wire_text(status) == Some(
                message_text("Status"@, quoted(phase)),
            ),
            None => wire_text(status) is None,
        },
{
    reveal_strlit("listening");
    reveal_strlit("processing");
    reveal_strlit("Status");
    reveal_strlit("{\"");
    reveal_strlit("\":");
    reveal_strlit("}");
    reveal_strlit("{\"Status\":\"listening\"}");
    reveal_strlit("{\"Status\":\"processing\"}");
    match status {
        VadStatus::SpeechStarted => {
            assert("{\"Status\":\"listening\"}"@ =~= message_text(
                "Status"@,
                quoted("listening"@),
            ));
        },
        VadStatus::SpeechEnded => {
            assert("{\"Status\":\"processing\"}"@ =~= message_text(
                "Status"@,
                quoted("processing"@),
            ));
        },
        _ => {},
    }
}

/// The text to send to the client for a classification, if any.
pub fn outbound(status: VadStatus) -> (out: Result<Option<String>, EncodeError>)
    ensures
        sends(out, status),
{
    proof {
        lemma_wire_text_is_enveloped_phase(status);
    }
    match reaction(status) {
        Some(event) => {
            match encode(&event) {
                Ok(text) => Ok(Some(text)),
                Err(e) => Err(e),
            }
        },
        None => Ok(None),
    }
}

/// What a session knows between two frames.
pub struct SessionModel {
    pub vad: VadModel,
    pub open: bool,
}

/// One connection: its detector, and whether the connection is still open.
pub struct Session {
    vad: VadState,
    open: bool,
}

impl View for Session {
    type V = SessionModel;

    closed spec fn view(&self) -> SessionModel {
        SessionModel { vad: self.vad@, open: self.open }
    }
}

impl Session {
    /// The session of a connection that was just accepted.
    pub fn new(config: VadConfig) -> (session: Self)
        ensures
            session@.open,
            session@.vad == (VadModel { config, is_speaking: false, silence_counter: 0 }),
    {
        Session { vad: VadState::new(config), open: true }
    }

    /// Takes the next inbound frame. An open session decodes an audio
    /// frame and asks for its energy, ends on a close frame and passes
    /// over any other; a closed session takes nothing more.
    pub fn receive(&mut self, frame: &Frame) -> (demand: Demand)
        ensures
            final(self)@.vad == old(self)@.vad,
            final(self)@.open == (old(self)@.open && !(frame is Close)),
            match demand {
                Demand::Measure(samples) => {
                    &&& old(self)@.open
                    &&& frame matches Frame::Binary(bytes)
                    &&& samples@ == decoded(bytes@)
                },
                Demand::Skip => old(self)@.open && frame is Other,
                Demand::Stop => !old(self)@.open || frame is Close,
            },
    {
        if !self.open {
            return Demand::Stop;
        }
        match frame {
            Frame::Binary(bytes) => Demand::Measure(bytes_to_f32(bytes.as_slice())),
            Frame::Close => {
                self.open = false;
                Demand::Stop
            },
            Frame::Other => Demand::Skip,
        }
    }

    /// Takes the energy of the batch that `receive` asked to measure (a
    /// binary32 bit pattern): the detector classifies the batch, and the
    /// result is the text to send to the client, if the batch opened or
    /// closed an utterance. A closed session classifies nothing.
    pub fn classify(&mut self, energy: u32) -> (out: Result<Option<String>, EncodeError>)
        ensures
            final(self)@.open == old(self)@.open,
            old(self)@.open ==> {
                &&& final(self)@.vad == old(self)@.vad.next(energy)
                &&& sends(out, old(self)@.vad.status_of(energy))
            },
            !old(self)@.open ==> final(self)@.vad == old(self)@.vad && out == Ok::<
                Option<String>,
                EncodeError,
            >(None),
    {
        if !self.open {
            return Ok(None);
        }
        let status = self.vad.process(energy);
        outbound(status)
    }

    /// Ends the session: the connection is gone, or a message could not be
    /// delivered.
    pub fn close(&mut self)
        ensures
            final(self)@.vad == old(self)@.vad,
            !final(self)@.open,
    {
        self.open = false;
    }

    /// Whether the session still takes frames.
    pub fn is_open(&self) -> (open: bool)
        ensures
            open == self@.open,
    {
        self.open
    }

    /// The session's detector.
    pub fn vad(&self) -> (vad: &VadState)
        ensures
            vad@ == self@.vad,
    {
        &self.vad
    }
}

} // verus!
