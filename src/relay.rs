//! One direction of the byte relay.
//!
//! A pump is handed what each read of its source yielded and answers with the
//! bytes to write to its sink, or with `None` once the direction is over. A
//! zero-length read is the end of the stream. A direction ends at the end of
//! its source's stream or at the first read or write failure, and forwards
//! nothing after that.
use vstd::prelude::*;

verus! {

/// Size of the buffer that each direction reads into.
pub const RELAY_BUFFER: usize = 8192;

/// What one read of a source yielded.
pub enum Transfer {
    /// The bytes read; none means the end of the stream.
    Data(Vec<u8>),
    /// The source reported the end of its stream.
    End,
    /// A read from the source, or a write to the sink, failed.
    Failed,
}

/// The bytes that a transfer carries, if it carries any.
pub open spec fn payload(t: Transfer) -> Option<Seq<u8>> {
    match t {
        Transfer::Data(v) => if v@.len() > 0 { Some(v@) } else { None },
        _ => None,
    }
}

/// One step of a direction: whether it is still open afterwards, and the
/// bytes to write to the sink.
pub open spec fn pump_next(open: bool, t: Transfer) -> (bool, Option<Seq<u8>>) {
    if open && payload(t) is Some {
        (true, payload(t))
    } else {
        (false, None)
    }
}

/// Everything that a direction writes to its sink over the transfers `ts`.
pub open spec fn emitted(open: bool, ts: Seq<Transfer>) -> Seq<u8>
    decreases ts.len(),
{
    if ts.len() == 0 {
        Seq::empty()
    } else {
        let (still_open, out) = pump_next(open, ts[0]);
        let here = match out {
            Some(b) => b,
            None => Seq::empty(),
        };
        here + emitted(still_open, ts.drop_first())
    }
}

/// The bytes that the source delivered before its stream ended or failed.
pub open spec fn delivered(ts: Seq<Transfer>) -> Seq<u8>
    decreases ts.len(),
{
    if ts.len() == 0 {
        Seq::empty()
    } else {
        match payload(ts[0]) {
            Some(b) => b + delivered(ts.drop_first()),
            None => Seq::empty(),
        }
    }
}

/// The state of one direction of the relay.
pub struct Pump {
    open: bool,
}

impl View for Pump {
    type V = bool;

    /// Whether the direction is still forwarding.
    closed spec fn view(&self) -> bool {
        self.open
    }
}

impl Pump {
    /// A direction that has forwarded nothing yet.
    pub fn new() -> (r: Pump)
        ensures
            r@,
    {
        Pump { open: true }
    }

    /// Whether the direction is still forwarding.
    pub fn is_open(&self) -> (r: bool)
        ensures
            r == self@,
    {
        self.open
    }

    /// Takes what one read of the source yielded and returns the bytes to
    /// write to the sink, all of them and in order, or `None` where the
    /// direction is over: at the end of the stream, on a failure, or after
    /// either.
    pub fn step(&mut self, t: Transfer) -> (r: Option<Vec<u8>>)
        ensures
            final(self)@ == pump_next(old(self)@, t).0,
            match r {
                Some(v) => pump_next(old(self)@, t).1 == Some(v@),
                None => pump_next(old(self)@, t).1 is None,
            },
    {
        if !self.open {
            return None;
        }
        match t {
            Transfer::Data(v) => {
                if v.len() > 0 {
                    Some(v)
                } else {
                    self.open = false;
                    None
                }
            },
            _ => {
                self.open = false;
                None
            },
        }
    }
}

/// A relay direction is loss-less and keeps order: from a fresh pump, what is
/// written to the sink is exactly what the source delivered before its stream
/// ended or failed, byte for byte.
pub proof fn lemma_relay_lossless(ts: Seq<Transfer>)
    ensures
        emitted(true, ts) == delivered(ts),
    decreases ts.len(),
{
    if ts.len() > 0 {
        match payload(ts[0]) {
            Some(b) => {
                lemma_relay_lossless(ts.drop_first());
            },
            None => {
                lemma_stopped_forwards_nothing(ts.drop_first());
                assert(emitted(true, ts) =~= Seq::<u8>::empty());
            },
        }
    }
}

/// A direction that is over forwards nothing more, whatever its source
/// yields afterwards.
pub proof fn lemma_stopped_forwards_nothing(ts: Seq<Transfer>)
    ensures
        emitted(false, ts) == Seq::<u8>::empty(),
    decreases ts.len(),
{
    if ts.len() > 0 {
        lemma_stopped_forwards_nothing(ts.drop_first());
        assert(emitted(false, ts) =~= Seq::<u8>::empty());
    }
}

/// Nothing that the source yields after the end of its stream, or after a
/// failure, reaches the sink: the transfers from the first one that carries
/// no bytes onwards add nothing to what is written.
pub proof fn lemma_nothing_after_end(ts: Seq<Transfer>, k: int)
    requires
        0 <= k < ts.len(),
        payload(ts[k]) is None,
    ensures
        emitted(true, ts) == emitted(true, ts.take(k)),
    decreases k,
{
    if k == 0 {
        lemma_stopped_forwards_nothing(ts.drop_first());
        assert(emitted(true, ts) =~= Seq::<u8>::empty());
        assert(ts.take(0) =~= Seq::<Transfer>::empty());
    } else {
        assert(ts.take(k).drop_first() =~= ts.drop_first().take(k - 1));
        assert(ts.take(k)[0] == ts[0]);
        if payload(ts[0]) is Some {
            lemma_nothing_after_end(ts.drop_first(), k - 1);
        } else {
            lemma_stopped_forwards_nothing(ts.drop_first());
            lemma_stopped_forwards_nothing(ts.take(k).drop_first());
        }
    }
}

} // verus!
