//! The output pump of a session: what to do with each read of the
//! pseudo-terminal's output stream.
//!
//! A pump is bound to one session. Its owner reads the stream in chunks of at
//! most [`CHUNK_SIZE`] bytes and reports each read to [`Pump::on_read`], which
//! answers with the text to forward under the pump's event name, or stops the
//! pump for good.

use vstd::prelude::*;
use vstd::string::*;
use vstd::utf8::*;

verus! {

/// The largest number of bytes that one read asks for.
pub const CHUNK_SIZE: usize = 1024;

/// What the name of every output event starts with.
pub const EVENT_PREFIX: &'static str = "pty-output:";

/// The name under which the output of session `id` is forwarded.
pub open spec fn spec_event_name(id: Seq<char>) -> Seq<char> {
    EVENT_PREFIX@ + id
}

/// Builds the name under which the output of session `id` is forwarded.
pub fn event_name(id: &str) -> (name: String)
    ensures
        name@ == spec_event_name(id@),
{
    let mut name = String::from_str(EVENT_PREFIX);
    name.append(id);
    name
}

/// What one read of the output stream reported.
#[derive(Clone, Copy, Debug)]
pub enum ReadOutcome<'a> {
    /// The read succeeded with these bytes; none at all is the end of the stream.
    Data(&'a [u8]),
    /// The read failed.
    Failed,
}

/// What the pump does after a read.
#[derive(Clone, Copy, Debug, PartialEq, Eq, Structural)]
pub enum PumpStep {
    /// Forward the chunk that was read and read again.
    Forward,
    /// Stop reading for good.
    Stop,
}

/// The pump goes on exactly while it runs and reads come back with data: the
/// end of the stream and a failed read both end it, and nothing restarts it.
pub open spec fn spec_pump_step(running: bool, outcome: ReadOutcome<'_>) -> PumpStep {
    match outcome {
        ReadOutcome::Data(bytes) => if running && bytes@.len() > 0 {
            PumpStep::Forward
        } else {
            PumpStep::Stop
        },
        ReadOutcome::Failed => PumpStep::Stop,
    }
}

/// Decides what a pump that is running, or not, does after a read.
pub fn pump_step(running: bool, outcome: ReadOutcome<'_>) -> (step: PumpStep)
    ensures
        step == spec_pump_step(running, outcome),
{
    match outcome {
        ReadOutcome::Data(bytes) => if running && bytes.len() > 0 {
            PumpStep::Forward
        } else {
            PumpStep::Stop
        },
        ReadOutcome::Failed => PumpStep::Stop,
    }
}

/// The text that lossy decoding makes of a byte sequence: the bytes read as
/// UTF-8, each invalid sequence replaced by U+FFFD.
pub uninterp spec fn lossy_text(bytes: Seq<u8>) -> Seq<char>;

/// Calls `String::from_utf8_lossy` and takes ownership of what it returns.
/// Trusted: the result is the lossy decoding of `bytes`, a function of the
/// bytes alone, and bytes that already are valid UTF-8 are decoded unchanged.
#[verifier::external_body]
fn decode_lossy(bytes: &[u8]) -> (text: String)
    ensures
        text@ == lossy_text(bytes@),
        valid_utf8(bytes@) ==> text@ == decode_utf8(bytes@),
{
    String::from_utf8_lossy(bytes).into_owned()
}

/// The bytes that a read brought; none when it failed.
pub open spec fn spec_chunk(outcome: ReadOutcome<'_>) -> Seq<u8> {
    match outcome {
        ReadOutcome::Data(bytes) => bytes@,
        ReadOutcome::Failed => Seq::empty(),
    }
}

/// The text that forwarding makes of what a read brought.
pub open spec fn spec_chunk_text(outcome: ReadOutcome<'_>) -> Seq<char> {
    lossy_text(spec_chunk(outcome))
}

/// The output pump of one session.
pub struct Pump {
    event_name: String,
    running: bool,
}

impl Pump {
    /// The name under which this pump forwards text.
    pub closed spec fn spec_name(&self) -> Seq<char> {
        self.event_name@
    }

    /// Whether the pump still reads.
    pub closed spec fn spec_is_running(&self) -> bool {
        self.running
    }

    /// A running pump bound to session `id`.
    pub fn new(id: &str) -> (pump: Pump)
        ensures
            pump.spec_name() == spec_event_name(id@),
            pump.spec_is_running(),
    {
        Pump { event_name: event_name(id), running: true }
    }

    /// The name under which this pump forwards text.
    pub fn name(&self) -> (name: &str)
        ensures
            name@ == self.spec_name(),
    {
        self.event_name.as_str()
    }

    /// Tells whether the pump still reads.
    #[verifier::when_used_as_spec(spec_is_running)]
    pub fn is_running(&self) -> (running: bool)
        ensures
            running == self.spec_is_running(),
    {
        self.running
    }

    /// Takes the outcome of one read. A running pump that read data hands
    /// out the lossy decoding of the chunk, to be forwarded under its name,
    /// and keeps running. Otherwise nothing is forwarded and the pump is
    /// stopped from then on.
    pub fn on_read(&mut self, outcome: ReadOutcome<'_>) -> (forward: Option<String>)
        ensures
            final(self).spec_name() == old(self).spec_name(),
            final(self).spec_is_running() == (spec_pump_step(old(self).spec_is_running(), outcome)
                is Forward),
            forward is Some == (spec_pump_step(old(self).spec_is_running(), outcome) is Forward),
            forward matches Some(text) ==> text@ == spec_chunk_text(outcome),
            forward matches Some(text) ==> valid_utf8(spec_chunk(outcome)) ==> text@ == decode_utf8(
                spec_chunk(outcome),
            ),
    {
        match outcome {
            ReadOutcome::Data(bytes) => {
                match pump_step(self.running, outcome) {
                    PumpStep::Forward => Some(decode_lossy(bytes)),
                    PumpStep::Stop => {
                        self.running = false;
                        None
                    },
                }
            },
            ReadOutcome::Failed => {
                self.running = false;
                None
            },
        }
    }
}

} // verus!
