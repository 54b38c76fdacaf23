//! Classification of raw payloads into semantic message kinds.
//!
//! A payload announces its schema by a four-byte identifier that follows
//! the four-byte root offset at its start. Classification looks at that
//! identifier first and at the topic second, so that the high-rate data
//! path is recognised without a string comparison.

use vstd::prelude::*;
use vstd::slice::slice_subrange;

use crate::envelope::Envelope;
use crate::frame::TraceFrame;

verus! {

/// The schemas this library recognises.
#[derive(Clone, Copy, Debug, PartialEq, Eq)]
pub enum Schema {
    /// Digitizer analog trace frames.
    Trace,
    /// Start of a run.
    RunStart,
    /// End of a run.
    RunStop,
}

/// Number of bytes before the identifier.
pub const IDENTIFIER_OFFSET: usize = 4;

/// Number of bytes of the identifier.
pub const IDENTIFIER_LENGTH: usize = 4;

impl Schema {
    /// The four identifier bytes of the schema: the ASCII codes of `dat2`,
    /// `pl72` and `6s4t`.
    pub open spec fn tag(self) -> Seq<u8> {
        match self {
            Schema::Trace => seq![0x64u8, 0x61u8, 0x74u8, 0x32u8],
            Schema::RunStart => seq![0x70u8, 0x6cu8, 0x37u8, 0x32u8],
            Schema::RunStop => seq![0x36u8, 0x73u8, 0x34u8, 0x74u8],
        }
    }

    /// The identifier bytes as an array.
    pub fn identifier(self) -> (id: [u8; 4])
        ensures
            id@ == self.tag(),
    {
        match self {
            Schema::Trace => [0x64u8, 0x61u8, 0x74u8, 0x32u8],
            Schema::RunStart => [0x70u8, 0x6cu8, 0x37u8, 0x32u8],
            Schema::RunStop => [0x36u8, 0x73u8, 0x34u8, 0x74u8],
        }
    }
}

/// Whether `payload` announces `schema`: it is long enough to hold an
/// identifier, and bytes 4 to 7 are the schema's tag.
pub open spec fn carries(payload: Seq<u8>, schema: Schema) -> bool {
    payload.len() >= IDENTIFIER_OFFSET + IDENTIFIER_LENGTH && payload.subrange(
        IDENTIFIER_OFFSET as int,
        IDENTIFIER_OFFSET + IDENTIFIER_LENGTH,
    ) == schema.tag()
}

/// Tests the identifier of `payload` against `schema`. A payload that is
/// too short to hold an identifier carries none.
pub fn has_identifier(payload: &[u8], schema: Schema) -> (found: bool)
    ensures
        found == carries(payload@, schema),
{
    if payload.len() < IDENTIFIER_OFFSET + IDENTIFIER_LENGTH {
        return false;
    }
    let id = schema.identifier();
    let got = slice_subrange(payload, IDENTIFIER_OFFSET, IDENTIFIER_OFFSET + IDENTIFIER_LENGTH);
    let mut i: usize = 0;
    while i < IDENTIFIER_LENGTH
        invariant
            i <= IDENTIFIER_LENGTH,
            got@.len() == IDENTIFIER_LENGTH,
            id@ == schema.tag(),
            id@.len() == IDENTIFIER_LENGTH,
            got@ == payload@.subrange(
                IDENTIFIER_OFFSET as int,
                IDENTIFIER_OFFSET + IDENTIFIER_LENGTH,
            ),
            forall|k: int| 0 <= k < i ==> got@[k] == id@[k],
        decreases IDENTIFIER_LENGTH - i,
    {
        if got[i] != id[i] {
            return false;
        }
        i += 1;
    }
    assert(got@ =~= id@);
    true
}

/// Whether `payload` announces a digitizer analog trace frame.
pub fn digitizer_analog_trace_message_buffer_has_identifier(payload: &[u8]) -> (found: bool)
    ensures
        found == carries(payload@, Schema::Trace),
{
    has_identifier(payload, Schema::Trace)
}

/// Whether `payload` announces the start of a run.
pub fn run_start_buffer_has_identifier(payload: &[u8]) -> (found: bool)
    ensures
        found == carries(payload@, Schema::RunStart),
{
    has_identifier(payload, Schema::RunStart)
}

/// Whether `payload` announces the end of a run.
pub fn run_stop_buffer_has_identifier(payload: &[u8]) -> (found: bool)
    ensures
        found == carries(payload@, Schema::RunStop),
{
    has_identifier(payload, Schema::RunStop)
}

/// Semantic kind of a message, without what it carries.
#[derive(Clone, Copy, Debug, PartialEq, Eq)]
pub enum Kind {
    /// A run begins.
    RunStart,
    /// A run ends.
    RunStop,
    /// A trace frame that decoded.
    TraceFrame,
    /// Unknown schema on the control topic.
    Unrecognized,
    /// A message on a topic where it has no business.
    Unexpected,
    /// The trace identifier over a body that does not decode.
    DecodeFailed,
}

/// A message after classification.
#[derive(Clone, Debug, PartialEq, Eq)]
pub enum Classified {
    /// A run begins; the envelope's timestamp names its artifact.
    RunStart,
    /// A run ends.
    RunStop,
    /// A decoded trace frame.
    TraceFrame(TraceFrame),
    /// Unknown schema on the control topic.
    Unrecognized,
    /// A message on a topic where it has no business.
    Unexpected,
    /// The trace identifier over a body that does not decode.
    DecodeFailed,
}

impl Classified {
    /// The kind of the message.
    pub open spec fn kind(self) -> Kind {
        match self {
            Classified::RunStart => Kind::RunStart,
            Classified::RunStop => Kind::RunStop,
            Classified::TraceFrame(_) => Kind::TraceFrame,
            Classified::Unrecognized => Kind::Unrecognized,
            Classified::Unexpected => Kind::Unexpected,
            Classified::DecodeFailed => Kind::DecodeFailed,
        }
    }
}

/// The kind of a payload that arrived on `topic`, where `control_topic` is
/// the designated control topic and `decodes` says whether the body decodes
/// as a trace frame. The identifier is looked at before the topic.
pub open spec fn kind_of(
    control_topic: Seq<char>,
    topic: Seq<char>,
    payload: Seq<u8>,
    decodes: bool,
) -> Kind {
    if carries(payload, Schema::Trace) {
        if decodes {
            Kind::TraceFrame
        } else {
            Kind::DecodeFailed
        }
    } else if topic == control_topic {
        if carries(payload, Schema::RunStart) {
            Kind::RunStart
        } else if carries(payload, Schema::RunStop) {
            Kind::RunStop
        } else {
            Kind::Unrecognized
        }
    } else {
        Kind::Unexpected
    }
}

/// The classification of a payload: its kind, and with a trace frame the
/// decoded frame itself.
pub open spec fn classification(
    control_topic: Seq<char>,
    topic: Seq<char>,
    payload: Seq<u8>,
    decoded: Option<TraceFrame>,
) -> Classified {
    match kind_of(control_topic, topic, payload, decoded is Some) {
        Kind::RunStart => Classified::RunStart,
        Kind::RunStop => Classified::RunStop,
        Kind::TraceFrame => Classified::TraceFrame(decoded->0),
        Kind::Unrecognized => Classified::Unrecognized,
        Kind::Unexpected => Classified::Unexpected,
        Kind::DecodeFailed => Classified::DecodeFailed,
    }
}

/// Classifier for one pair of topics: it knows which topic is the control
/// topic and holds no other state.
#[derive(Clone, Debug, PartialEq, Eq)]
pub struct Classifier {
    /// Name of the control topic.
    pub control_topic: String,
}

impl Classifier {
    /// A classifier for the given control topic.
    pub fn new(control_topic: String) -> (classifier: Classifier)
        ensures
            classifier.control_topic == control_topic,
    {
        Classifier { control_topic }
    }

    /// Classifies one payload.
    ///
    /// `decoded` is what the trace decoder made of the payload: the frame,
    /// or `None` where the body is malformed. It is read only where the
    /// payload carries the trace identifier.
    pub fn classify(&self, topic: &String, payload: &[u8], decoded: Option<TraceFrame>) -> (message: Classified)
        ensures
            message == classification(self.control_topic@, topic@, payload@, decoded),
            message.kind() == kind_of(self.control_topic@, topic@, payload@, decoded is Some),
    {
        if digitizer_analog_trace_message_buffer_has_identifier(payload) {
            match decoded {
                Some(frame) => Classified::TraceFrame(frame),
                None => Classified::DecodeFailed,
            }
        } else if *topic == self.control_topic {
            if run_start_buffer_has_identifier(payload) {
                Classified::RunStart
            } else if run_stop_buffer_has_identifier(payload) {
                Classified::RunStop
            } else {
                Classified::Unrecognized
            }
        } else {
            Classified::Unexpected
        }
    }

    /// Classifies the message in `envelope`: the classification of its
    /// payload on its topic, or `None` where the message has no payload
    /// and so nothing to classify.
    pub fn classify_envelope(&self, envelope: &Envelope, decoded: Option<TraceFrame>) -> (message: Option<
        Classified,
    >)
        ensures
            message == match envelope.payload {
                Some(payload) => Some(
                    classification(self.control_topic@, envelope.topic@, payload@, decoded),
                ),
                None => None,
            },
    {
        match &envelope.payload {
            Some(payload) => Some(self.classify(&envelope.topic, payload.as_slice(), decoded)),
            None => None,
        }
    }
}

} // verus!
