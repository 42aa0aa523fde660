//! The wire protocol between the hook and the driver.
//!
//! A frame is a little-endian `u32` length, then a tag byte and the payload; the length counts
//! the tag and the payload. The game thread sends one observation per RL step and then blocks for
//! one step-ending command: ACT (an action), RESET (a sequence number, a params block and, with
//! [`FLAG_RECORD`], a stage record), or TAPE (one action per frame for many frames).

use crate::bytes::{le_u16, le_u32, read_u16_le, read_u32_le, u32_le_bytes};
use crate::input::{Action, action_bits_ok};
use crate::practice::{
    FLAG_RECORD, PARAMS_LEN, PracticeParams, RECORD_LEN, params_decoded, params_valid,
};
use vstd::prelude::*;

verus! {

/// The most frames a TAPE command may carry.
pub const MAX_TAPE_FRAMES: usize = 36_000;
/// The largest allowed inbound command body: a tag, a count and two bytes per tape frame. A
/// RESET with a record (`1 + 4 + PARAMS_LEN + RECORD_LEN` bytes) fits.
pub const MAX_CMD: usize = 72_005;
/// The largest allowed outbound frame length.
pub const MAX_OBS: u32 = 0x10_0000;
/// The header of an outbound frame: the length prefix and the tag byte.
pub const OBS_HEADER: usize = 5;

/// Hook to driver: an observation.
pub const MSG_OBS: u8 = 0x01;
/// Driver to hook: an action.
pub const CMD_ACT: u8 = 0x01;
/// Driver to hook: a reset.
pub const CMD_RESET: u8 = 0x02;
/// Driver to hook: a tape of actions.
pub const CMD_TAPE: u8 = 0x03;

/// Why a frame broke the protocol.
#[derive(Debug, Clone, Copy, PartialEq, Eq, Structural)]
pub enum ProtocolError {
    /// The body has no tag byte.
    EmptyBody,
    BadActLength,
    ActOutsideMask,
    BadResetLength,
    ResetParamsInvalid,
    /// A RESET with [`FLAG_RECORD`] must carry a [`RECORD_LEN`]-byte record.
    BadRecordLength,
    BadTapeLength,
    TapeOutsideMask,
    UnknownTag,
    /// An outbound frame longer than [`MAX_OBS`].
    FrameTooLarge,
    /// An inbound length of zero or beyond the receive buffer.
    BadFrameLength,
}

/// A decoded step-ending command.
pub enum Command {
    Act(Action),
    Reset {
        seq: u32,
        params: PracticeParams,
        /// `Some(_)` iff the params carry [`FLAG_RECORD`].
        record: Option<Vec<u8>>,
    },
    /// One action per frame, applied on the live stage frames that follow.
    Tape(Vec<Action>),
}

/// A command as plain values: actions by their bits.
pub enum CommandView {
    Act(u32),
    Reset { seq: u32, params: PracticeParams, record: Option<Seq<u8>> },
    Tape(Seq<u32>),
}

impl View for Command {
    type V = CommandView;

    open spec fn view(&self) -> CommandView {
        match self {
            Command::Act(a) => CommandView::Act(a.spec_bits()),
            Command::Reset { seq, params, record } => CommandView::Reset {
                seq: *seq,
                params: *params,
                record: match record {
                    Some(r) => Some(r@),
                    None => None,
                },
            },
            Command::Tape(t) => CommandView::Tape(t@.map_values(|a: Action| a.spec_bits())),
        }
    }
}

/// The action bits of each tape frame: the `u16` at `2 * i` of the keys.
pub open spec fn tape_bits(keys: Seq<u8>, count: int) -> Seq<u32> {
    Seq::new(count as nat, |i: int| le_u16(keys, 2 * i) as u32)
}

/// Decodes a command body (its tag byte and payload).
pub open spec fn spec_decode(body: Seq<u8>) -> Result<CommandView, ProtocolError> {
    if body.len() == 0 {
        Err(ProtocolError::EmptyBody)
    } else {
        let payload = body.subrange(1, body.len() as int);
        if body[0] == CMD_ACT {
            if payload.len() != 4 {
                Err(ProtocolError::BadActLength)
            } else if !action_bits_ok(le_u32(payload, 0)) {
                Err(ProtocolError::ActOutsideMask)
            } else {
                Ok(CommandView::Act(le_u32(payload, 0)))
            }
        } else if body[0] == CMD_RESET {
            if payload.len() < 4 + PARAMS_LEN {
                Err(ProtocolError::BadResetLength)
            } else {
                let params_bytes = payload.subrange(4, 4 + PARAMS_LEN);
                let blob = payload.subrange(4 + PARAMS_LEN, payload.len() as int);
                if !params_valid(params_bytes) {
                    Err(ProtocolError::ResetParamsInvalid)
                } else {
                    let params = params_decoded(params_bytes);
                    if params.flags & FLAG_RECORD != 0 {
                        if blob.len() != RECORD_LEN {
                            Err(ProtocolError::BadRecordLength)
                        } else {
                            Ok(
                                CommandView::Reset {
                                    seq: le_u32(payload, 0),
                                    params,
                                    record: Some(blob),
                                },
                            )
                        }
                    } else if blob.len() != 0 {
                        Err(ProtocolError::BadResetLength)
                    } else {
                        Ok(CommandView::Reset { seq: le_u32(payload, 0), params, record: None })
                    }
                }
            }
        } else if body[0] == CMD_TAPE {
            if payload.len() < 4 {
                Err(ProtocolError::BadTapeLength)
            } else {
                let count = le_u32(payload, 0) as int;
                let keys = payload.subrange(4, payload.len() as int);
                if count == 0 || count > MAX_TAPE_FRAMES || keys.len() != 2 * count {
                    Err(ProtocolError::BadTapeLength)
                } else if exists|i: int| 0 <= i < count && !action_bits_ok(#[trigger] tape_bits(keys, count)[i]) {
                    Err(ProtocolError::TapeOutsideMask)
                } else {
                    Ok(CommandView::Tape(tape_bits(keys, count)))
                }
            }
        } else {
            Err(ProtocolError::UnknownTag)
        }
    }
}

/// Copies `buf[at..at + len]`.
fn copy_range(buf: &[u8], at: usize, len: usize) -> (r: Vec<u8>)
    requires
        at + len <= buf@.len(),
    ensures
        r@ == buf@.subrange(at as int, at + len),
{
    let mut out: Vec<u8> = Vec::new();
    let total = buf.len();
    let mut k: usize = 0;
    while k < len
        invariant
            k <= len,
            at + len <= total,
            total == buf@.len(),
            out@ == buf@.subrange(at as int, at + k),
        decreases len - k,
    {
        out.push(buf[at + k]);
        assert(out@ =~= buf@.subrange(at as int, at + k + 1));
        k += 1;
    }
    out
}

/// Decodes the tape keys `keys[at..at + 2 * count]`, failing on a frame outside the action
/// mask.
fn decode_tape(body: &[u8], at: usize, count: usize) -> (r: Result<Vec<Action>, ProtocolError>)
    requires
        at + 2 * count <= body@.len(),
    ensures
        match r {
            Ok(t) => (forall|i: int| 0 <= i < count ==> action_bits_ok(
                #[trigger] tape_bits(body@.subrange(at as int, at + 2 * count), count as int)[i],
            )) && t@.map_values(|a: Action| a.spec_bits()) == tape_bits(
                body@.subrange(at as int, at + 2 * count),
                count as int,
            ),
            Err(e) => e == ProtocolError::TapeOutsideMask && exists|i: int|
                0 <= i < count && !action_bits_ok(
                    #[trigger] tape_bits(body@.subrange(at as int, at + 2 * count), count as int)[i],
                ),
        },
{
    let ghost keys = body@.subrange(at as int, at + 2 * count);
    let ghost bits = tape_bits(keys, count as int);
    let mut tape: Vec<Action> = Vec::new();
    let total = body.len();
    let mut i: usize = 0;
    while i < count
        invariant
            i <= count,
            at + 2 * count <= total,
            total == body@.len(),
            keys == body@.subrange(at as int, at + 2 * count),
            bits == tape_bits(keys, count as int),
            tape@.len() == i,
            forall|j: int| 0 <= j < i ==> action_bits_ok(#[trigger] bits[j]),
            forall|j: int| 0 <= j < i ==> (#[trigger] tape@[j]).spec_bits() == bits[j],
        decreases count - i,
    {
        let word = read_u16_le(body, at + 2 * i) as u32;
        assert(keys[2 * i] == body@[at + 2 * i]);
        assert(keys[2 * i + 1] == body@[at + 2 * i + 1]);
        assert(word == bits[i as int]);
        match Action::from_wire(word) {
            Some(a) => tape.push(a),
            None => {
                assert(!action_bits_ok(bits[i as int]));
                return Err(ProtocolError::TapeOutsideMask);
            },
        }
        i += 1;
    }
    assert(tape@.map_values(|a: Action| a.spec_bits()) =~= bits);
    Ok(tape)
}

/// Decodes a command body: its tag byte and payload.
pub fn decode_command(body: &[u8]) -> (r: Result<Command, ProtocolError>)
    ensures
        match (r, spec_decode(body@)) {
            (Ok(c), Ok(v)) => c@ == v,
            (Err(e), Err(f)) => e == f,
            _ => false,
        },
{
    let n = body.len();
    if n == 0 {
        return Err(ProtocolError::EmptyBody);
    }
    let ghost payload = body@.subrange(1, n as int);
    let tag = body[0];
    let plen = n - 1;
    if tag == CMD_ACT {
        if plen != 4 {
            return Err(ProtocolError::BadActLength);
        }
        let bits = read_u32_le(body, 1);
        assert(bits == le_u32(payload, 0));
        match Action::from_wire(bits) {
            Some(a) => Ok(Command::Act(a)),
            None => Err(ProtocolError::ActOutsideMask),
        }
    } else if tag == CMD_RESET {
        if plen < 4 + PARAMS_LEN {
            return Err(ProtocolError::BadResetLength);
        }
        let seq = read_u32_le(body, 1);
        assert(seq == le_u32(payload, 0));
        let params_bytes = copy_range(body, 5, PARAMS_LEN);
        assert(params_bytes@ =~= payload.subrange(4, 4 + PARAMS_LEN));
        let params = match PracticeParams::parse(params_bytes.as_slice()) {
            Some(p) => p,
            None => {
                return Err(ProtocolError::ResetParamsInvalid);
            },
        };
        let blob_len = plen - 4 - PARAMS_LEN;
        let blob = copy_range(body, 5 + PARAMS_LEN, blob_len);
        assert(blob@ =~= payload.subrange(4 + PARAMS_LEN, payload.len() as int));
        if params.flags & FLAG_RECORD != 0 {
            if blob_len != RECORD_LEN {
                return Err(ProtocolError::BadRecordLength);
            }
            Ok(Command::Reset { seq, params, record: Some(blob) })
        } else {
            if blob_len != 0 {
                return Err(ProtocolError::BadResetLength);
            }
            Ok(Command::Reset { seq, params, record: None })
        }
    } else if tag == CMD_TAPE {
        if plen < 4 {
            return Err(ProtocolError::BadTapeLength);
        }
        let count = read_u32_le(body, 1);
        assert(count == le_u32(payload, 0));
        let klen = plen - 4;
        if count == 0 || count as usize > MAX_TAPE_FRAMES || klen != 2 * (count as usize) {
            return Err(ProtocolError::BadTapeLength);
        }
        let ghost keys = payload.subrange(4, payload.len() as int);
        assert(keys =~= body@.subrange(5, 5 + 2 * count));
        match decode_tape(body, 5, count as usize) {
            Ok(t) => Ok(Command::Tape(t)),
            Err(e) => Err(e),
        }
    } else {
        Err(ProtocolError::UnknownTag)
    }
}

/// The length of an inbound frame body announced by its prefix, checked against the receive
/// buffer's capacity.
pub fn frame_body_len(len: u32, capacity: usize) -> (r: Result<usize, ProtocolError>)
    ensures
        match r {
            Ok(n) => n == len && 0 < len <= capacity,
            Err(e) => e == ProtocolError::BadFrameLength && (len == 0 || len > capacity),
        },
{
    if len == 0 || len as usize > capacity {
        Err(ProtocolError::BadFrameLength)
    } else {
        Ok(len as usize)
    }
}

/// The receive buffer for one command body.
pub struct CommandBuf {
    pub body: Vec<u8>,
}

impl CommandBuf {
    /// A zeroed buffer of [`MAX_CMD`] bytes.
    pub fn new() -> (r: Self)
        ensures
            r.body@.len() == MAX_CMD,
            forall|i: int| 0 <= i < MAX_CMD ==> r.body@[i] == 0,
    {
        let mut body: Vec<u8> = Vec::new();
        let mut k: usize = 0;
        while k < MAX_CMD
            invariant
                k <= MAX_CMD,
                body@.len() == k,
                forall|i: int| 0 <= i < k ==> body@[i] == 0,
            decreases MAX_CMD - k,
        {
            body.push(0);
            k += 1;
        }
        CommandBuf { body }
    }
}

/// An outbound frame under construction: the header placeholder, then the payload.
pub struct ObsFrame {
    pub buf: Vec<u8>,
}

impl ObsFrame {
    /// Starts a frame in `buf`, dropping what it held.
    pub fn begin(buf: Vec<u8>) -> (r: Self)
        ensures
            r.buf@ == seq![0u8, 0u8, 0u8, 0u8, 0u8],
    {
        let mut buf = buf;
        buf.clear();
        buf.push(0);
        buf.push(0);
        buf.push(0);
        buf.push(0);
        buf.push(0);
        assert(buf@ =~= seq![0u8, 0u8, 0u8, 0u8, 0u8]);
        ObsFrame { buf }
    }

    /// Returns the buffer to append the payload to.
    pub fn payload(&mut self) -> (r: &mut Vec<u8>)
        ensures
            *r == old(self).buf,
            final(self).buf == *final(r),
    {
        &mut self.buf
    }

    /// Writes the length (tag plus payload) and the tag over the header and returns the
    /// sendable frame, or an error if the frame exceeds [`MAX_OBS`].
    pub fn finish(self, tag: u8) -> (r: Result<Vec<u8>, ProtocolError>)
        requires
            self.buf@.len() >= OBS_HEADER,
        ensures
            match r {
                Ok(frame) => {
                    &&& self.buf@.len() - 4 <= MAX_OBS
                    &&& frame@ == u32_le_bytes((self.buf@.len() - 4) as u32) + seq![tag]
                        + self.buf@.subrange(OBS_HEADER as int, self.buf@.len() as int)
                },
                Err(e) => e == ProtocolError::FrameTooLarge && self.buf@.len() - 4 > MAX_OBS,
            },
    {
        let total = self.buf.len();
        if total - 4 > MAX_OBS as usize {
            return Err(ProtocolError::FrameTooLarge);
        }
        let len = (total - 4) as u32;
        let mut buf = self.buf;
        buf.set(0, (len % 0x100) as u8);
        buf.set(1, (len / 0x100 % 0x100) as u8);
        buf.set(2, (len / 0x1_0000 % 0x100) as u8);
        buf.set(3, (len / 0x100_0000 % 0x100) as u8);
        buf.set(4, tag);
        assert(buf@ =~= u32_le_bytes(len) + seq![tag] + self.buf@.subrange(
            OBS_HEADER as int,
            total as int,
        ));
        Ok(buf)
    }
}

/// The number of times the connector dials the driver before giving up.
pub const CONNECT_ATTEMPTS: u32 = 40;

/// How one dial of the driver ended.
#[derive(Debug, Clone, Copy, PartialEq, Eq, Structural)]
pub enum DialOutcome {
    /// The driver answered.
    Connected,
    /// The address refused the connection: nothing listens there.
    Refused,
    /// Any other failure (the driver may not be listening yet).
    Failed,
}

/// What the connector does after a dial.
#[derive(Debug, Clone, Copy, PartialEq, Eq, Structural)]
pub enum DialAction {
    /// Keep the stream.
    Publish,
    /// Abort: the address refused.
    AbortRefused,
    /// Wait, then dial again.
    Retry,
    /// Abort: every attempt failed.
    AbortDeadline,
}

/// The connector's decision after dial number `attempt` (counting from 0) ended with `outcome`:
/// keep a connection, abort on a refusal, and retry any other failure until
/// [`CONNECT_ATTEMPTS`] dials have been made.
pub fn connect_step(attempt: u32, outcome: DialOutcome) -> (r: DialAction)
    ensures
        r == (match outcome {
            DialOutcome::Connected => DialAction::Publish,
            DialOutcome::Refused => DialAction::AbortRefused,
            DialOutcome::Failed => if attempt + 1 < CONNECT_ATTEMPTS {
                DialAction::Retry
            } else {
                DialAction::AbortDeadline
            },
        }),
{
    match outcome {
        DialOutcome::Connected => DialAction::Publish,
        DialOutcome::Refused => DialAction::AbortRefused,
        DialOutcome::Failed => if attempt < CONNECT_ATTEMPTS - 1 {
            DialAction::Retry
        } else {
            DialAction::AbortDeadline
        },
    }
}

} // verus!
