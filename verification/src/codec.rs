//! Frame codec: inbound binary frames become sample batches, outbound
//! messages become compact JSON text.

use vstd::prelude::*;
use vstd::string::StringExecFns;
use crate::models::TranscriptionResponse;

verus! {

/// The 32-bit word that four bytes spell in little-endian order.
pub open spec fn le_u32(b0: u8, b1: u8, b2: u8, b3: u8) -> u32 {
    (b0 + 256 * b1 + 65536 * b2 + 16777216 * b3) as u32
}

/// The four bytes of a word, lowest first.
pub open spec fn le_bytes(word: u32) -> Seq<u8> {
    seq![
        (word % 256) as u8,
        (word / 256 % 256) as u8,
        (word / 65536 % 256) as u8,
        (word / 16777216) as u8,
    ]
}

/// The batch a frame carries: one sample for each full group of four
/// bytes, in order; up to three bytes left over at the end are dropped.
pub open spec fn decoded(bytes: Seq<u8>) -> Seq<u32> {
    Seq::new(
        (bytes.len() / 4) as nat,
        |i: int| le_u32(bytes[4 * i], bytes[4 * i + 1], bytes[4 * i + 2], bytes[4 * i + 3]),
    )
}

/// The frame that carries a batch: four bytes for each sample, in order.
pub open spec fn frame_of(samples: Seq<u32>) -> Seq<u8> {
    Seq::new(4 * samples.len(), |j: int| le_bytes(samples[j / 4])[j % 4])
}

/// Decodes a binary frame into its batch of samples, each the bit pattern
/// of a little-endian binary32 value. Every frame decodes.
pub fn bytes_to_f32(bytes: &[u8]) -> (samples: Vec<u32>)
    ensures
        samples@ == decoded(bytes@),
{
    let count: usize = bytes.len() / 4;
    let mut samples: Vec<u32> = Vec::with_capacity(count);
    let mut i: usize = 0;
    while i < count
        invariant
            bytes@.len() <= usize::MAX,
            count == bytes@.len() / 4,
            i <= count,
            samples@ == decoded(bytes@).take(i as int),
        decreases count - i,
    {
        let b0: u32 = bytes[4 * i] as u32;
        let b1: u32 = bytes[4 * i + 1] as u32;
        let b2: u32 = bytes[4 * i + 2] as u32;
        let b3: u32 = bytes[4 * i + 3] as u32;
        samples.push(b0 + 256 * b1 + 65536 * b2 + 16777216 * b3);
        i += 1;
        assert(samples@ =~= decoded(bytes@).take(i as int));
    }
    assert(decoded(bytes@).take(count as int) =~= decoded(bytes@));
    samples
}

/// The bytes of a word spell that word.
pub proof fn lemma_le_bytes_spell_word(word: u32)
    ensures
        le_u32(le_bytes(word)[0], le_bytes(word)[1], le_bytes(word)[2], le_bytes(word)[3])
            == word,
{
}

/// Decoding inverts framing: a frame built from any samples decodes to
/// exactly those samples, and up to three stray bytes behind it change
/// nothing.
pub proof fn lemma_decode_inverts_framing(samples: Seq<u32>, tail: Seq<u8>)
    requires
        tail.len() < 4,
    ensures
        decoded(frame_of(samples) + tail) == samples,
{
    let frame = frame_of(samples) + tail;
    assert(decoded(frame) =~= samples) by {
        assert forall|i: int| 0 <= i < samples.len() implies decoded(frame)[i] == samples[i] by {
            lemma_le_bytes_spell_word(samples[i]);
            assert(frame[4 * i] == le_bytes(samples[i])[0]);
            assert(frame[4 * i + 1] == le_bytes(samples[i])[1]);
            assert(frame[4 * i + 2] == le_bytes(samples[i])[2]);
            assert(frame[4 * i + 3] == le_bytes(samples[i])[3]);
        }
    }
}

/// A frame of any length decodes, to a quarter as many samples, rounded down.
pub proof fn lemma_decoded_len(bytes: Seq<u8>)
    ensures
        decoded(bytes).len() == bytes.len() / 4,
{
}

/// The JSON string literal that `serde_json` writes for a text: the text
/// between double quotes, with the characters escaped that JSON asks for.
pub uninterp spec fn json_string_literal(text: Seq<char>) -> Seq<char>;

/// Whether a text holds none of the characters that `serde_json` escapes
/// in a literal: none below U+0020, no double quote and no backslash.
pub open spec fn needs_no_escape(text: Seq<char>) -> bool {
    forall|i: int|
        0 <= i < text.len() ==> {
            let c = #[trigger] text[i];
            c as u32 >= 0x20 && c != '"' && c != '\\'
        }
}

/// A text between double quotes.
pub open spec fn quoted(text: Seq<char>) -> Seq<char> {
    seq!['"'] + text + seq!['"']
}

/// The error type of `serde_json`, carried through as an opaque value.
#[verifier::external_type_specification]
#[verifier::external_body]
pub struct ExJsonError(serde_json::Error);

/// Calls `serde_json::to_string` on a string slice. Trusted: the call
/// succeeds, since a string slice is written into a byte vector and the
/// writer's only failure is one of its sink; its result is the compact
/// JSON literal of the text, which depends on the text alone; and a text
/// without a character to escape comes back unchanged between double
/// quotes.
#[verifier::external_body]
fn json_quote(text: &str) -> (out: Result<String, serde_json::Error>)
    ensures
        out is Ok,
        out matches Ok(literal) ==> literal@ == json_string_literal(text@),
        out matches Ok(literal) ==> (needs_no_escape(text@) ==> literal@ == quoted(text@)),
{
    serde_json::to_string(text)
}

/// A message on the wire: an object with one member, whose name is the
/// variant and whose value is the text as a JSON literal.
pub open spec fn message_text(tag: Seq<char>, literal: Seq<char>) -> Seq<char> {
    "{\""@ + tag + "\":"@ + literal + "}"@
}

/// The text that encodes a message.
pub open spec fn encoded(response: TranscriptionResponse) -> Seq<char> {
    message_text(response.tag(), json_string_literal(response.body()))
}

/// Why a message could not be encoded.
#[derive(Debug, Clone, Copy, PartialEq, Eq, Structural)]
pub enum EncodeError {
    /// The text of the message could not be written as JSON.
    Unserializable,
}

/// Puts the JSON literal of a message's text into the message's envelope.
pub fn envelope(response: &TranscriptionResponse, literal: &str) -> (text: String)
    ensures
        text@ == message_text(response.tag(), literal@),
{
    let tag = match response {
        TranscriptionResponse::Partial(_) => "Partial",
        TranscriptionResponse::Final(_) => "Final",
        TranscriptionResponse::Status(_) => "Status",
    };
    let mut text = String::from_str("{\"");
    text.append(tag);
    text.append("\":");
    text.append(literal);
    text.append("}");
    text
}

/// Encodes a message as compact JSON text. Every message encodes.
pub fn encode(response: &TranscriptionResponse) -> (out: Result<String, EncodeError>)
    ensures
        out matches Ok(text) && text@ == encoded(*response),
        needs_no_escape(response.body()) ==> (out matches Ok(text) && text@ == message_text(
            response.tag(),
            quoted(response.body()),
        )),
{
    let body = match response {
        TranscriptionResponse::Partial(text) => text.as_str(),
        TranscriptionResponse::Final(text) => text.as_str(),
        TranscriptionResponse::Status(text) => text.as_str(),
    };
    finish(response, json_quote(body))
}

/// Finishes the encoding of a message from what the JSON writer returned
/// for the message's text: a literal goes into the envelope, a failure of
/// the writer becomes `Unserializable`.
pub fn finish(response: &TranscriptionResponse, written: Result<String, serde_json::Error>) -> (out:
    Result<String, EncodeError>)
    ensures
        match written {
            Ok(literal) => out matches Ok(text) && text@ == message_text(
                response.tag(),
                literal@,
            ),
            Err(_) => out == Err::<String, EncodeError>(EncodeError::Unserializable),
        },
{
    match written {
        Ok(literal) => Ok(envelope(response, literal.as_str())),
        Err(_) => Err(EncodeError::Unserializable),
    }
}

} // verus!
