//! One direction of a session: a byte pump from a source stream to a sink.
//!
//! The pump alternates between reading a chunk from the source and writing
//! that chunk to the sink, continuing short writes until the whole chunk is
//! accepted. The caller performs the reads and writes and reports their
//! outcome; the pump keeps a ghost record of every byte taken from the
//! source and every byte accepted by the sink.

use vstd::prelude::*;
use vstd::slice::{slice_subrange, slice_to_vec};

verus! {

/// Size of the buffer that a direction reads into.
pub const CHUNK_SIZE: usize = 1024;

/// How a direction came to an end.
#[derive(Clone, Copy, Debug, PartialEq, Eq, Structural)]
pub enum Ending {
    /// The source reported end-of-stream (a zero-length read).
    Eof,
    /// A read or a write failed, or the sink accepted nothing.
    Failed,
}

/// What a pump waits for.
#[derive(Clone, Copy, Debug, PartialEq, Eq, Structural)]
pub enum Stage {
    /// The next step is a read from the source.
    Reading,
    /// The next step is a write of the pending bytes to the sink.
    Writing,
    /// The direction is over.
    Ended(Ending),
}

/// Abstract state of a pump.
pub ghost struct PumpView {
    pub stage: Stage,
    /// Every byte read from the source, in order.
    pub taken: Seq<u8>,
    /// Every byte the sink has accepted, in order.
    pub delivered: Seq<u8>,
}

/// An outcome reported to a pump.
pub ghost enum PumpEvent {
    /// A read returned these bytes (none: end-of-stream).
    Read(Seq<u8>),
    /// A write accepted this many of the pending bytes.
    Wrote(nat),
    /// A read or write failed.
    Fault,
}

impl PumpView {
    pub open spec fn initial() -> PumpView {
        PumpView { stage: Stage::Reading, taken: Seq::empty(), delivered: Seq::empty() }
    }

    /// Bytes read but not yet accepted by the sink.
    pub open spec fn pending(self) -> Seq<u8> {
        self.taken.skip(self.delivered.len() as int)
    }

    pub open spec fn wf(self) -> bool {
        &&& self.delivered.len() <= self.taken.len()
        &&& self.taken.take(self.delivered.len() as int) == self.delivered
        &&& self.stage == Stage::Writing ==> self.pending().len() > 0
        &&& (self.stage == Stage::Reading || self.stage == Stage::Ended(Ending::Eof))
            ==> self.pending().len() == 0
    }

    /// Whether the event can be reported in this state.
    pub open spec fn allows(self, e: PumpEvent) -> bool {
        match e {
            PumpEvent::Read(_) => self.stage == Stage::Reading,
            PumpEvent::Wrote(k) => self.stage == Stage::Writing && k <= self.pending().len(),
            PumpEvent::Fault => true,
        }
    }

    pub open spec fn step(self, e: PumpEvent) -> PumpView {
        match e {
            PumpEvent::Read(chunk) => if chunk.len() == 0 {
                PumpView { stage: Stage::Ended(Ending::Eof), ..self }
            } else {
                PumpView { stage: Stage::Writing, taken: self.taken + chunk, ..self }
            },
            PumpEvent::Wrote(k) => if k == 0 {
                PumpView { stage: Stage::Ended(Ending::Failed), ..self }
            } else {
                PumpView {
                    stage: if k == self.pending().len() {
                        Stage::Reading
                    } else {
                        Stage::Writing
                    },
                    delivered: self.delivered + self.pending().take(k as int),
                    ..self
                }
            },
            PumpEvent::Fault => match self.stage {
                Stage::Ended(_) => self,
                _ => PumpView { stage: Stage::Ended(Ending::Failed), ..self },
            },
        }
    }

    /// Whether each event of `es` is allowed where it is reported.
    pub open spec fn legal(self, es: Seq<PumpEvent>) -> bool
        decreases es.len(),
    {
        es.len() == 0 || (self.allows(es[0]) && self.step(es[0]).legal(es.drop_first()))
    }

    /// The state after reporting the events of `es` in order.
    pub open spec fn run(self, es: Seq<PumpEvent>) -> PumpView
        decreases es.len(),
    {
        if es.len() == 0 {
            self
        } else {
            self.step(es[0]).run(es.drop_first())
        }
    }
}

/// The bytes of all the reads among `es`, in order.
pub open spec fn bytes_read(es: Seq<PumpEvent>) -> Seq<u8>
    decreases es.len(),
{
    if es.len() == 0 {
        Seq::empty()
    } else {
        match es[0] {
            PumpEvent::Read(chunk) => chunk + bytes_read(es.drop_first()),
            _ => bytes_read(es.drop_first()),
        }
    }
}

/// An allowed step keeps the state well formed, and only extends what was
/// taken and what was delivered.
pub proof fn lemma_step(s: PumpView, e: PumpEvent)
    requires
        s.wf(),
        s.allows(e),
    ensures
        s.step(e).wf(),
        s.step(e).taken == s.taken + (match e {
            PumpEvent::Read(chunk) => chunk,
            _ => Seq::<u8>::empty(),
        }),
        s.step(e).delivered.len() >= s.delivered.len(),
        s.step(e).delivered.take(s.delivered.len() as int) == s.delivered,
{
    let t = s.step(e);
    match e {
        PumpEvent::Read(chunk) => {
            assert(s.taken + Seq::<u8>::empty() =~= s.taken);
            if chunk.len() > 0 {
                assert(t.taken.take(s.delivered.len() as int) =~= s.taken.take(
                    s.delivered.len() as int,
                ));
                assert(t.pending() =~= s.pending() + chunk);
            }
        },
        PumpEvent::Wrote(k) => {
            assert(s.taken + Seq::<u8>::empty() =~= s.taken);
            if k > 0 {
                let d = t.delivered;
                assert(d.take(s.delivered.len() as int) =~= s.delivered);
                assert(s.taken.take(d.len() as int) =~= d);
                assert(t.pending() =~= s.pending().skip(k as int));
            }
        },
        PumpEvent::Fault => {
            assert(s.taken + Seq::<u8>::empty() =~= s.taken);
        },
    }
    assert(t.delivered.take(s.delivered.len() as int) =~= s.delivered);
}

/// Over any allowed run the state stays well formed, and the pump takes
/// from the source exactly the bytes of the reads, in order.
pub proof fn lemma_run(s: PumpView, es: Seq<PumpEvent>)
    requires
        s.wf(),
        s.legal(es),
    ensures
        s.run(es).wf(),
        s.run(es).taken == s.taken + bytes_read(es),
    decreases es.len(),
{
    if es.len() == 0 {
        assert(s.taken + bytes_read(es) =~= s.taken);
    } else {
        let e = es[0];
        let t = s.step(e);
        lemma_step(s, e);
        lemma_run(t, es.drop_first());
        match e {
            PumpEvent::Read(chunk) => {
                assert(s.taken + bytes_read(es) =~= s.taken + chunk + bytes_read(
                    es.drop_first(),
                ));
            },
            _ => {
                assert(t.taken =~= s.taken);
            },
        }
    }
}

/// Transparency of a direction: from a fresh pump, whatever the sink has
/// accepted is a prefix of the bytes read from the source, and once the
/// source reports end-of-stream the sink has accepted exactly those bytes,
/// in order and unaltered.
pub proof fn lemma_transparency(es: Seq<PumpEvent>)
    requires
        PumpView::initial().legal(es),
    ensures
        PumpView::initial().run(es).delivered.len() <= bytes_read(es).len(),
        PumpView::initial().run(es).delivered == bytes_read(es).take(
            PumpView::initial().run(es).delivered.len() as int,
        ),
        PumpView::initial().run(es).stage == Stage::Ended(Ending::Eof)
            ==> PumpView::initial().run(es).delivered == bytes_read(es),
{
    let s = PumpView::initial();
    assert(s.taken.take(0) =~= s.delivered);
    lemma_run(s, es);
    assert(s.taken + bytes_read(es) =~= bytes_read(es));
    let t = s.run(es);
    if t.stage == Stage::Ended(Ending::Eof) {
        assert(t.taken.take(t.delivered.len() as int) =~= t.taken);
    }
}

/// A pump with its chunk buffer and the ghost record of its traffic.
pub struct Pump {
    stage: Stage,
    chunk: Vec<u8>,
    sent: usize,
    taken: Ghost<Seq<u8>>,
    delivered: Ghost<Seq<u8>>,
}

impl View for Pump {
    type V = PumpView;

    closed spec fn view(&self) -> PumpView {
        PumpView { stage: self.stage, taken: self.taken@, delivered: self.delivered@ }
    }
}

impl Pump {
    /// The pump's state matches its buffer: the pending bytes are the unsent
    /// tail of the current chunk.
    pub closed spec fn inv(&self) -> bool {
        &&& self@.wf()
        &&& self.sent <= self.chunk@.len()
        &&& self@.pending() == self.chunk@.skip(self.sent as int)
    }

    /// A pump that waits for its first read.
    pub fn new() -> (p: Pump)
        ensures
            p.inv(),
            p@ == PumpView::initial(),
    {
        let p = Pump {
            stage: Stage::Reading,
            chunk: Vec::new(),
            sent: 0,
            taken: Ghost(Seq::empty()),
            delivered: Ghost(Seq::empty()),
        };
        assert(p@.taken.take(0) =~= p@.delivered);
        assert(p@.pending() =~= p.chunk@.skip(0));
        p
    }

    /// What the pump waits for.
    pub fn stage(&self) -> (r: Stage)
        requires
            self.inv(),
        ensures
            r == self@.stage,
            self@.wf(),
    {
        self.stage
    }

    /// The bytes to hand to the sink next.
    pub fn pending(&self) -> (r: &[u8])
        requires
            self.inv(),
        ensures
            r@ == self@.pending(),
            self@.wf(),
    {
        let r = slice_subrange(self.chunk.as_slice(), self.sent, self.chunk.len());
        assert(r@ =~= self.chunk@.skip(self.sent as int));
        r
    }

    /// Reports a read that returned `chunk`; an empty chunk is end-of-stream.
    pub fn on_read(&mut self, chunk: &[u8])
        requires
            old(self).inv(),
            old(self)@.stage == Stage::Reading,
        ensures
            final(self).inv(),
            final(self)@ == old(self)@.step(PumpEvent::Read(chunk@)),
    {
        proof {
            lemma_step(self@, PumpEvent::Read(chunk@));
        }
        if chunk.len() == 0 {
            self.stage = Stage::Ended(Ending::Eof);
        } else {
            let ghost old_pending = self@.pending();
            let ghost taken = self.taken@ + chunk@;
            self.chunk = slice_to_vec(chunk);
            self.sent = 0;
            self.taken = Ghost(taken);
            self.stage = Stage::Writing;
            assert(self@.pending() =~= old_pending + chunk@);
            assert(self.chunk@.skip(0) =~= chunk@);
        }
    }

    /// Reports a write that accepted the first `n` pending bytes; a write
    /// that accepts none ends the direction as failed.
    pub fn on_written(&mut self, n: usize)
        requires
            old(self).inv(),
            old(self)@.stage == Stage::Writing,
            n <= old(self)@.pending().len(),
        ensures
            final(self).inv(),
            final(self)@ == old(self)@.step(PumpEvent::Wrote(n as nat)),
    {
        proof {
            lemma_step(self@, PumpEvent::Wrote(n as nat));
        }
        if n == 0 {
            self.stage = Stage::Ended(Ending::Failed);
        } else {
            let ghost old_view = self@;
            let ghost pending = self@.pending();
            let ghost delivered = self.delivered@ + pending.take(n as int);
            let len = self.chunk.len();
            assert(pending.len() == len - self.sent);
            self.sent = self.sent + n;
            self.delivered = Ghost(delivered);
            if self.sent == len {
                self.stage = Stage::Reading;
            }
            assert(self@ == old_view.step(PumpEvent::Wrote(n as nat)));
            assert(self@.pending() =~= pending.skip(n as int));
            assert(pending.skip(n as int) =~= self.chunk@.skip(self.sent as int));
        }
    }

    /// Reports a failed read or write.
    pub fn fail(&mut self)
        requires
            old(self).inv(),
        ensures
            final(self).inv(),
            final(self)@ == old(self)@.step(PumpEvent::Fault),
    {
        proof {
            lemma_step(self@, PumpEvent::Fault);
        }
        match self.stage {
            Stage::Ended(_) => {},
            _ => {
                self.stage = Stage::Ended(Ending::Failed);
            },
        }
    }
}

} // verus!
