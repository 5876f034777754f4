//! The dump response protocol: the termination policy layered over the
//! decoded messages answering one request. Messages of the expected kind
//! are surfaced; the "done" sentinel ends the dump successfully; an
//! "error" message ends it with the kernel's status code, where a zero
//! code is a success acknowledgment; a message of any other kind ends the
//! dump as end of relevant data; so does the stream closing.

use vstd::prelude::*;
use crate::bytes::{read_u32_le, u32_of_le};
use crate::message::{
    header_of, payload_of, NetlinkMessage, NLMSG_DONE, NLMSG_ERROR, NLMSG_NOOP,
};

verus! {

/// How a dump ended.
#[derive(Clone, Copy, Debug, PartialEq, Eq, Structural)]
pub enum DumpTermination {
    /// A sentinel reported success: a "done" message, or an "error"
    /// message whose status code is zero.
    Done,
    /// The input ended without a sentinel: the stream closed, or a message
    /// of an unexpected kind arrived. End of relevant data, not an error.
    End,
    /// An "error" message carried this nonzero kernel status code.
    Failed(i32),
    /// An "error" message too short to carry a status code.
    Malformed,
}

/// What one message contributes to a dump.
#[derive(Clone, Copy, Debug, PartialEq, Eq, Structural)]
pub enum DumpStep {
    /// A message of the expected kind: surface it to the caller.
    Item,
    /// A no-op message: ignore it and go on.
    Skip,
    /// The dump is over.
    Terminal(DumpTermination),
}

/// The signed status code at the front of an "error" message's payload.
pub open spec fn error_code_of(payload: Seq<u8>) -> i32 {
    u32_of_le(payload.subrange(0, 4)) as i32
}

/// How the dump protocol classifies one message of the given kind and
/// payload, against the expected kind.
pub open spec fn spec_dump_step(expected: u16, kind: u16, payload: Seq<u8>) -> DumpStep {
    if kind == NLMSG_ERROR {
        if payload.len() < 4 {
            DumpStep::Terminal(DumpTermination::Malformed)
        } else if error_code_of(payload) == 0 {
            DumpStep::Terminal(DumpTermination::Done)
        } else {
            DumpStep::Terminal(DumpTermination::Failed(error_code_of(payload)))
        }
    } else if kind == NLMSG_DONE {
        DumpStep::Terminal(DumpTermination::Done)
    } else if kind == NLMSG_NOOP {
        DumpStep::Skip
    } else if kind == expected {
        DumpStep::Item
    } else {
        DumpStep::Terminal(DumpTermination::End)
    }
}

/// Classifies one decoded message against the expected kind.
pub fn dump_step(expected: u16, msg: &NetlinkMessage) -> (r: DumpStep)
    ensures
        r == spec_dump_step(expected, header_of(msg@).kind, payload_of(msg@)),
{
    let kind = msg.kind();
    if kind == NLMSG_ERROR {
        let payload = msg.payload();
        if payload.len() < 4 {
            DumpStep::Terminal(DumpTermination::Malformed)
        } else {
            let code = #[verifier::truncate] (read_u32_le(&payload, 0) as i32);
            if code == 0 {
                DumpStep::Terminal(DumpTermination::Done)
            } else {
                DumpStep::Terminal(DumpTermination::Failed(code))
            }
        }
    } else if kind == NLMSG_DONE {
        DumpStep::Terminal(DumpTermination::Done)
    } else if kind == NLMSG_NOOP {
        DumpStep::Skip
    } else if kind == expected {
        DumpStep::Item
    } else {
        DumpStep::Terminal(DumpTermination::End)
    }
}

/// The response correlation for one request already written to the
/// transport: an explicit state machine, so retry under a non-blocking
/// transport needs no hidden control flow. Push each decoded message until
/// a terminal step; close when the stream ends first.
pub struct DumpSession {
    expected_kind: u16,
    terminal: Option<DumpTermination>,
}

impl DumpSession {
    /// The message kind this session surfaces.
    pub closed spec fn expected(self) -> u16 {
        self.expected_kind
    }

    /// The terminal state, once one is reached.
    pub closed spec fn finished(self) -> Option<DumpTermination> {
        self.terminal
    }

    /// A session expecting messages of the given kind.
    pub fn new(expected_kind: u16) -> (r: Self)
        ensures
            r.expected() == expected_kind,
            r.finished() is None,
    {
        DumpSession { expected_kind, terminal: None }
    }

    /// The terminal state, if the session has reached one.
    pub fn state(&self) -> (r: Option<DumpTermination>)
        ensures
            r == self.finished(),
    {
        self.terminal
    }

    /// Classifies the next decoded message and latches a terminal step.
    pub fn push(&mut self, msg: &NetlinkMessage) -> (r: DumpStep)
        requires
            old(self).finished() is None,
        ensures
            r == spec_dump_step(old(self).expected(), header_of(msg@).kind, payload_of(msg@)),
            final(self).expected() == old(self).expected(),
            final(self).finished() == (match r {
                DumpStep::Terminal(t) => Some(t),
                _ => None::<DumpTermination>,
            }),
    {
        let r = dump_step(self.expected_kind, msg);
        match r {
            DumpStep::Terminal(t) => {
                self.terminal = Some(t);
            },
            _ => {},
        }
        r
    }

    /// Ends the session when the transport closes: a clean end unless a
    /// terminal step was already reached.
    pub fn close(&mut self) -> (r: DumpTermination)
        ensures
            r == (match old(self).finished() {
                Some(t) => t,
                None => DumpTermination::End,
            }),
            final(self).expected() == old(self).expected(),
            final(self).finished() == Some(r),
    {
        match self.terminal {
            Some(t) => t,
            None => {
                self.terminal = Some(DumpTermination::End);
                DumpTermination::End
            },
        }
    }
}

/// The byte buffers of a sequence of messages.
pub open spec fn msgs_view(s: Seq<NetlinkMessage>) -> Seq<Seq<u8>> {
    s.map_values(|m: NetlinkMessage| m@)
}

/// What a whole dump yields from a sequence of decoded message buffers:
/// the buffers surfaced as items, in order, and the terminal state.
pub open spec fn spec_dump(expected: u16, bufs: Seq<Seq<u8>>) -> (Seq<Seq<u8>>, DumpTermination)
    decreases bufs.len(),
{
    if bufs.len() == 0 {
        (Seq::empty(), DumpTermination::End)
    } else {
        match spec_dump_step(expected, header_of(bufs[0]).kind, payload_of(bufs[0])) {
            DumpStep::Item => {
                let rest = spec_dump(expected, bufs.skip(1));
                (seq![bufs[0]] + rest.0, rest.1)
            },
            DumpStep::Skip => spec_dump(expected, bufs.skip(1)),
            DumpStep::Terminal(t) => (Seq::empty(), t),
        }
    }
}

/// Runs a whole dump over an already decoded sequence of messages:
/// surfaces the messages of the expected kind up to the first terminal
/// step, and reports how the dump ended. A sequence that runs out without
/// a sentinel ends cleanly.
pub fn dump_collect(expected: u16, msgs: Vec<NetlinkMessage>) -> (r: (
    Vec<NetlinkMessage>,
    DumpTermination,
))
    ensures
        msgs_view(r.0@) == spec_dump(expected, msgs_view(msgs@)).0,
        r.1 == spec_dump(expected, msgs_view(msgs@)).1,
{
    let mut items: Vec<NetlinkMessage> = Vec::new();
    let mut rest = msgs;
    let ghost whole = spec_dump(expected, msgs_view(msgs@));
    proof {
        assert(msgs_view(items@) =~= Seq::<Seq<u8>>::empty());
        assert(Seq::<Seq<u8>>::empty() + spec_dump(expected, msgs_view(rest@)).0 =~= spec_dump(
            expected,
            msgs_view(rest@),
        ).0);
    }
    loop
        invariant
            whole == spec_dump(expected, msgs_view(msgs@)),
            whole.0 == msgs_view(items@) + spec_dump(expected, msgs_view(rest@)).0,
            whole.1 == spec_dump(expected, msgs_view(rest@)).1,
        ensures
            rest@.len() == 0,
            whole.0 == msgs_view(items@),
            whole.1 == DumpTermination::End,
        decreases rest@.len(),
    {
        if rest.len() == 0 {
            proof {
                assert(msgs_view(rest@) =~= Seq::<Seq<u8>>::empty());
                assert(msgs_view(items@) + Seq::<Seq<u8>>::empty() =~= msgs_view(items@));
            }
            break;
        }
        let ghost rest_bufs = msgs_view(rest@);
        let m = rest.remove(0);
        proof {
            assert(msgs_view(rest@) =~= rest_bufs.skip(1));
        }
        let step = dump_step(expected, &m);
        match step {
            DumpStep::Item => {
                let ghost seen = msgs_view(items@);
                items.push(m);
                proof {
                    assert(msgs_view(items@) =~= seen.push(rest_bufs[0]));
                    assert(seen.push(rest_bufs[0]) + spec_dump(expected, rest_bufs.skip(1)).0 =~=
                        seen + (seq![rest_bufs[0]] + spec_dump(expected, rest_bufs.skip(1)).0));
                }
            },
            DumpStep::Skip => {},
            DumpStep::Terminal(t) => {
                proof {
                    assert(spec_dump(expected, rest_bufs).0 =~= Seq::<Seq<u8>>::empty());
                    assert(msgs_view(items@) + Seq::<Seq<u8>>::empty() =~= msgs_view(items@));
                }
                return (items, t);
            },
        }
    }
    (items, DumpTermination::End)
}

} // verus!
