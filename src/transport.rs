use vstd::prelude::*;
use vstd::utf8::{decode_utf8, encode_utf8, valid_utf8};
use vstd::string::StringSliceAdditionalSpecFns;

use crate::event::Event;

verus! {

/// How long the drain phase waits for an outbound message, and the read
/// timeout of the device, in milliseconds.
pub const POLL_INTERVAL_MS: u64 = 20;

/// How many bytes one poll reads from the device at most.
pub const READ_BUFFER_LEN: usize = 50;

/// Parity checking of each character frame.
#[derive(Clone, Copy, Debug, PartialEq, Eq, Structural)]
pub enum Parity {
    Off,
    Odd,
    Even,
}

/// Flow control of the link.
#[derive(Clone, Copy, Debug, PartialEq, Eq, Structural)]
pub enum FlowControl {
    Off,
    Software,
    Hardware,
}

/// The link parameters, applied once when the worker starts.
#[derive(Clone, Copy, Debug, PartialEq, Eq, Structural)]
pub struct LinkSettings {
    pub baud_rate: u32,
    /// Data bits per character.
    pub char_size: u8,
    pub parity: Parity,
    pub stop_bits: u8,
    pub flow_control: FlowControl,
}

impl LinkSettings {
    /// 9600 baud, 8 data bits, no parity, 1 stop bit, no flow control.
    pub fn standard() -> (r: Self)
        ensures
            r.baud_rate == 9600,
            r.char_size == 8,
            r.parity == Parity::Off,
            r.stop_bits == 1,
            r.flow_control == FlowControl::Off,
    {
        LinkSettings {
            baud_rate: 9600,
            char_size: 8,
            parity: Parity::Off,
            stop_bits: 1,
            flow_control: FlowControl::Off,
        }
    }
}

/// `k` is the longest prefix length of `b` at which `b` decodes as UTF-8.
pub open spec fn longest_valid_prefix(b: Seq<u8>, k: nat) -> bool {
    &&& k <= b.len()
    &&& valid_utf8(b.subrange(0, k as int))
    &&& forall|j: int| k < j <= b.len() ==> !valid_utf8(#[trigger] b.subrange(0, j))
}

/// Whether `std::str::from_utf8` reports a failure on `b` as input that ended
/// inside a character (no error length), rather than as an invalid sequence.
pub uninterp spec fn utf8_ends_inside_char(b: Seq<u8>) -> bool;

/// The outcome of decoding `all`, the bytes kept back followed by those just
/// read: `r` is what is published and `rest` what is kept back.
///
/// Valid text is published whole. Text that ends inside a character is
/// published up to the longest prefix that decodes, and the tail is kept. An
/// invalid sequence is fatal.
pub open spec fn decoded_step(all: Seq<u8>, r: PollStep, rest: Seq<u8>) -> bool {
    if valid_utf8(all) {
        &&& rest == Seq::<u8>::empty()
        &&& if all.len() == 0 {
            r == PollStep::Idle
        } else {
            r matches PollStep::Publish(s) && s@ == decode_utf8(all)
        }
    } else if !utf8_ends_inside_char(all) {
        r == PollStep::Fatal(WorkerFault::Decode) && rest == all
    } else {
        exists|k: nat|
            #![trigger all.subrange(0, k as int)]
            {
                &&& longest_valid_prefix(all, k)
                &&& rest == all.subrange(k as int, all.len() as int)
                &&& if k == 0 {
                    r == PollStep::Idle
                } else {
                    r matches PollStep::Publish(s) && s@ == decode_utf8(all.subrange(0, k as int))
                }
            }
    }
}

/// Decoding loses, adds and reorders no byte: unless the step is fatal, the
/// published text encodes to the bytes in front of what is kept back, and the
/// two together are all the bytes there were.
pub proof fn decoding_keeps_every_byte(all: Seq<u8>, r: PollStep, rest: Seq<u8>)
    requires
        decoded_step(all, r, rest),
        !(r is Fatal),
    ensures
        r matches PollStep::Publish(s) ==> encode_utf8(s@) + rest == all,
        r is Idle ==> rest == all,
{
    if valid_utf8(all) {
        vstd::utf8::decode_utf8_encode_utf8(all);
        assert(all + Seq::<u8>::empty() == all);
    } else {
        let k = choose|k: nat|
            #![trigger all.subrange(0, k as int)]
            {
                &&& longest_valid_prefix(all, k)
                &&& rest == all.subrange(k as int, all.len() as int)
                &&& if k == 0 {
                    r == PollStep::Idle
                } else {
                    r matches PollStep::Publish(s) && s@ == decode_utf8(all.subrange(0, k as int))
                }
            };
        vstd::utf8::decode_utf8_encode_utf8(all.subrange(0, k as int));
        assert(all.subrange(0, k as int) + all.subrange(k as int, all.len() as int) == all);
        assert(all.subrange(0, all.len() as int) == all);
    }
}

/// Where decoding stopped on bytes that are not valid UTF-8 as a whole.
struct Utf8Stop {
    valid_up_to: usize,
    ends_inside_char: bool,
}

/// Relies on `std::str::from_utf8`: it accepts exactly the valid UTF-8 byte
/// strings and decodes them; on failure `Utf8Error::valid_up_to` is the
/// largest index up to which the input decodes, and `Utf8Error::error_len` is
/// `None` when the input ended inside a character.
#[verifier::external_body]
fn decode_bytes(b: &[u8]) -> (r: Result<String, Utf8Stop>)
    ensures
        r is Ok <==> valid_utf8(b@),
        r matches Ok(s) ==> s@ == decode_utf8(b@),
        r matches Err(e) ==> longest_valid_prefix(b@, e.valid_up_to as nat),
        r matches Err(e) ==> e.ends_inside_char == utf8_ends_inside_char(b@),
{
    match std::str::from_utf8(b) {
        Ok(s) => Ok(s.to_string()),
        Err(e) => Err(Utf8Stop { valid_up_to: e.valid_up_to(), ends_inside_char: e.error_len().is_none() }),
    }
}

/// Why the transport worker gave up.
#[derive(Clone, Copy, Debug, PartialEq, Eq, Structural)]
pub enum WorkerFault {
    /// The device sent a byte sequence that is not UTF-8.
    Decode,
    /// Reading from the device failed for another reason than a timeout.
    Channel,
}

/// What one read from the device gave.
#[derive(Clone, Debug, PartialEq, Eq)]
pub enum ReadOutcome {
    /// The bytes that were read.
    Data(Vec<u8>),
    /// The read timed out with nothing to read: no data this tick.
    TimedOut,
    /// Any other error of the device.
    Failed,
}

/// What the worker does after the poll phase of a tick.
#[derive(Clone, Debug, PartialEq, Eq)]
pub enum PollStep {
    /// Nothing to publish this tick.
    Idle,
    /// Publish this text to the coordinator as a `Message`.
    Publish(String),
    /// Stop the worker.
    Fatal(WorkerFault),
}

/// The decisions of the activity that owns the device: what to write in the
/// drain phase, and what to publish after the poll phase.
///
/// Bytes that end inside a character are kept across ticks, so a character
/// whose encoding arrives in two reads is published whole.
pub struct TransportWorker {
    pending: Vec<u8>,
    close_requested: bool,
}

impl TransportWorker {
    /// The bytes kept back for the next tick.
    pub closed spec fn residue(&self) -> Seq<u8> {
        self.pending@
    }

    /// Whether a `ClosePort` has arrived.
    pub closed spec fn closing(&self) -> bool {
        self.close_requested
    }

    /// A worker with nothing kept back and no close request.
    pub fn new() -> (r: Self)
        ensures
            r.residue() == Seq::<u8>::empty(),
            !r.closing(),
    {
        TransportWorker { pending: Vec::new(), close_requested: false }
    }

    /// Whether a `ClosePort` has arrived.
    pub fn close_requested(&self) -> (r: bool)
        ensures
            r == self.closing(),
    {
        self.close_requested
    }

    /// Drain phase: given the outbound event that arrived within the timeout,
    /// if any, returns the bytes to write to the device in full. A `ClosePort`
    /// is recorded and writes nothing.
    pub fn drain(&mut self, ev: Option<Event>) -> (r: Option<Vec<u8>>)
        ensures
            final(self).residue() == old(self).residue(),
            final(self).closing() == (old(self).closing() || ev == Some(Event::ClosePort)),
            match ev {
                Some(Event::Message(s)) => r matches Some(b) && b@ == encode_utf8(s@),
                _ => r is None,
            },
    {
        match ev {
            Some(Event::Message(s)) => {
                let src: &[u8] = s.as_str().as_bytes();
                let mut out: Vec<u8> = Vec::new();
                let mut i: usize = 0;
                while i < src.len()
                    invariant
                        i <= src@.len(),
                        out@ == src@.subrange(0, i as int),
                    decreases src@.len() - i,
                {
                    out.push(src[i]);
                    i = i + 1;
                }
                assert(out@ =~= src@);
                Some(out)
            },
            Some(Event::ClosePort) => {
                self.close_requested = true;
                None
            },
            _ => None,
        }
    }

    /// Poll phase: decides on what the read gave. A timeout publishes nothing;
    /// another read error is fatal. Read bytes follow those kept back; the
    /// longest prefix of them that decodes is published (nothing if it is
    /// empty) and the rest kept back, unless the rest holds an invalid
    /// sequence, which is fatal.
    pub fn poll(&mut self, outcome: ReadOutcome) -> (r: PollStep)
        ensures
            match outcome {
                ReadOutcome::TimedOut => r == PollStep::Idle && *final(self) == *old(self),
                ReadOutcome::Failed => r == PollStep::Fatal(WorkerFault::Channel)
                    && *final(self) == *old(self),
                ReadOutcome::Data(b) => decoded_step(old(self).residue() + b@, r, final(self).residue()),
            },
            final(self).closing() == old(self).closing(),
    {
        match outcome {
            ReadOutcome::TimedOut => PollStep::Idle,
            ReadOutcome::Failed => PollStep::Fatal(WorkerFault::Channel),
            ReadOutcome::Data(b) => self.absorb(&b),
        }
    }

    fn absorb(&mut self, bytes: &Vec<u8>) -> (r: PollStep)
        ensures
            decoded_step(old(self).residue() + bytes@, r, final(self).residue()),
            final(self).closing() == old(self).closing(),
    {
        let ghost all = self.pending@ + bytes@;
        let mut i: usize = 0;
        while i < bytes.len()
            invariant
                i <= bytes@.len(),
                self.pending@ == old(self).pending@ + bytes@.subrange(0, i as int),
                self.close_requested == old(self).close_requested,
            decreases bytes@.len() - i,
        {
            self.pending.push(bytes[i]);
            i = i + 1;
        }
        assert(bytes@.subrange(0, bytes@.len() as int) == bytes@);
        assert(self.pending@ == all);
        match decode_bytes(self.pending.as_slice()) {
            Ok(s) => {
                let n: usize = self.pending.len();
                self.pending = Vec::new();
                if n == 0 {
                    PollStep::Idle
                } else {
                    PollStep::Publish(s)
                }
            },
            Err(stop) => {
                if !stop.ends_inside_char {
                    PollStep::Fatal(WorkerFault::Decode)
                } else {
                    let rest = self.pending.split_off(stop.valid_up_to);
                    let head = decode_bytes(self.pending.as_slice());
                    self.pending = rest;
                    match head {
                        Ok(s) => {
                            if stop.valid_up_to == 0 {
                                PollStep::Idle
                            } else {
                                PollStep::Publish(s)
                            }
                        },
                        // The prefix decodes, so this arm is never taken.
                        Err(_) => PollStep::Idle,
                    }
                }
            },
        }
    }
}

} // verus!
