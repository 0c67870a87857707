use vstd::prelude::*;

verus! {

/// One observation made while draining a streamed response body: a data
/// frame of some payload size, a frame without payload (for instance a
/// trailer), or a mid-stream error.
#[derive(Clone, Copy, PartialEq, Eq, Structural, Debug)]
pub enum FrameEvent {
    Payload { len: usize },
    Empty,
    Fault,
}

/// The payload bytes one frame contributes to the total.
pub open spec fn frame_bytes(e: FrameEvent) -> nat {
    match e {
        FrameEvent::Payload { len } => len as nat,
        FrameEvent::Empty => 0,
        FrameEvent::Fault => 0,
    }
}

/// Whether a mid-stream error occurs anywhere in the sequence.
pub open spec fn has_fault(s: Seq<FrameEvent>) -> bool {
    exists|i: int| 0 <= i < s.len() && s[i] is Fault
}

/// The exact byte total of a frame sequence: payload sizes are summed in
/// order until the first error, which ends the accounting with the partial
/// total accumulated so far.
pub open spec fn metered(s: Seq<FrameEvent>) -> nat
    decreases s.len(),
{
    if s.len() == 0 {
        0
    } else {
        match s[0] {
            FrameEvent::Payload { len } => len as nat + metered(s.skip(1)),
            FrameEvent::Empty => metered(s.skip(1)),
            FrameEvent::Fault => 0,
        }
    }
}

/// A total clipped to what a 64-bit counter can hold.
pub open spec fn sat64(n: nat) -> nat {
    if n > u64::MAX {
        u64::MAX as nat
    } else {
        n
    }
}

proof fn lemma_has_fault_skip(s: Seq<FrameEvent>)
    requires
        s.len() > 0,
        !(s[0] is Fault),
    ensures
        has_fault(s) <==> has_fault(s.skip(1)),
{
    if has_fault(s) {
        let i = choose|i: int| 0 <= i < s.len() && s[i] is Fault;
        assert(s.skip(1)[i - 1] is Fault);
    }
    if has_fault(s.skip(1)) {
        let i = choose|i: int| 0 <= i < s.skip(1).len() && s.skip(1)[i] is Fault;
        assert(s[i + 1] is Fault);
    }
}

proof fn lemma_has_fault_push(s: Seq<FrameEvent>, x: FrameEvent)
    ensures
        has_fault(s.push(x)) <==> (has_fault(s) || x is Fault),
{
    if has_fault(s.push(x)) {
        let i = choose|i: int| 0 <= i < s.push(x).len() && s.push(x)[i] is Fault;
        if i < s.len() {
            assert(s[i] is Fault);
        }
    }
    if has_fault(s) {
        let i = choose|i: int| 0 <= i < s.len() && s[i] is Fault;
        assert(s.push(x)[i] is Fault);
    }
    if x is Fault {
        assert(s.push(x)[s.len() as int] is Fault);
    }
}

/// How appending one more observed frame changes the exact total: nothing
/// once an error has been seen, else by that frame's payload bytes.
pub proof fn lemma_metered_push(s: Seq<FrameEvent>, x: FrameEvent)
    ensures
        metered(s.push(x)) == if has_fault(s) {
            metered(s)
        } else {
            metered(s) + frame_bytes(x)
        },
    decreases s.len(),
{
    if s.len() == 0 {
        assert(!has_fault(s));
        assert(s.push(x)[0] == x);
        assert(s.push(x).skip(1) =~= Seq::<FrameEvent>::empty());
        match x {
            FrameEvent::Payload { len } => {
                assert(metered(s.push(x)) == len as nat + metered(s.push(x).skip(1)));
            },
            FrameEvent::Empty => {
                assert(metered(s.push(x)) == metered(s.push(x).skip(1)));
            },
            FrameEvent::Fault => {
                assert(metered(s.push(x)) == 0);
            },
        }
    } else {
        assert(s.push(x)[0] == s[0]);
        match s[0] {
            FrameEvent::Fault => {
                assert(has_fault(s));
                assert(metered(s) == 0);
                assert(metered(s.push(x)) == 0);
            },
            FrameEvent::Payload { len } => {
                assert(s.push(x).skip(1) =~= s.skip(1).push(x));
                lemma_metered_push(s.skip(1), x);
                lemma_has_fault_skip(s);
                assert(metered(s) == len as nat + metered(s.skip(1)));
                assert(metered(s.push(x)) == len as nat + metered(s.skip(1).push(x)));
            },
            FrameEvent::Empty => {
                assert(s.push(x).skip(1) =~= s.skip(1).push(x));
                lemma_metered_push(s.skip(1), x);
                lemma_has_fault_skip(s);
                assert(metered(s) == metered(s.skip(1)));
                assert(metered(s.push(x)) == metered(s.skip(1).push(x)));
            },
        }
    }
}

/// Law: once an error has been observed, later frames change nothing — the
/// partial total stands, however many frames would have followed.
pub proof fn lemma_fault_freezes(s: Seq<FrameEvent>, rest: Seq<FrameEvent>)
    requires
        has_fault(s),
    ensures
        metered(s + rest) == metered(s),
    decreases s.len(),
{
    assert(s.len() > 0);
    assert((s + rest)[0] == s[0]);
    if s[0] is Fault {
    } else {
        assert((s + rest).skip(1) =~= s.skip(1) + rest);
        lemma_has_fault_skip(s);
        lemma_fault_freezes(s.skip(1), rest);
    }
}

/// The response meter: drains a body frame by frame, keeping only a running
/// byte total — never the content.  Once an error is seen it stops counting
/// and ignores everything offered afterwards.
pub struct Meter {
    total: u64,
    stopped: bool,
    history: Ghost<Seq<FrameEvent>>,
}

impl Meter {
    /// The frames this meter has consumed so far.
    pub closed spec fn consumed(&self) -> Seq<FrameEvent> {
        self.history@
    }

    /// The meter's invariant: the counter clips the exact total at what a
    /// 64-bit counter holds, and the meter has stopped exactly when an error
    /// has been consumed.
    pub closed spec fn wf(&self) -> bool {
        &&& self.total as nat == sat64(metered(self.consumed()))
        &&& self.stopped == has_fault(self.consumed())
    }

    /// A fresh meter: nothing consumed, total zero.
    pub fn new() -> (m: Meter)
        ensures
            m.wf(),
            m.consumed() == Seq::<FrameEvent>::empty(),
    {
        Meter { total: 0, stopped: false, history: Ghost(Seq::empty()) }
    }

    /// Offers one frame observation.  Before any error the frame is
    /// consumed and counted; after an error the meter is unchanged — no
    /// further frame is consulted.  Returns whether draining should go on.
    pub fn feed(&mut self, e: FrameEvent) -> (cont: bool)
        requires
            old(self).wf(),
        ensures
            final(self).wf(),
            final(self).consumed() == if has_fault(old(self).consumed()) {
                old(self).consumed()
            } else {
                old(self).consumed().push(e)
            },
            cont == !has_fault(final(self).consumed()),
    {
        proof {
            lemma_metered_push(self.consumed(), e);
            lemma_has_fault_push(self.consumed(), e);
        }
        if self.stopped {
            return false;
        }
        match e {
            FrameEvent::Payload { len } => {
                let l = len as u64;
                if l <= u64::MAX - self.total {
                    self.total = self.total + l;
                } else {
                    self.total = u64::MAX;
                }
            },
            FrameEvent::Empty => {},
            FrameEvent::Fault => {
                self.stopped = true;
            },
        }
        self.history = Ghost(self.history@.push(e));
        !self.stopped
    }

    /// The bytes counted so far, clipped at what a 64-bit counter holds.
    pub fn total(&self) -> (t: u64)
        requires
            self.wf(),
        ensures
            t as nat == sat64(metered(self.consumed())),
    {
        self.total
    }
}

/// Byte accounting over an already-observed frame sequence: the exact total
/// up to the first error, clipped at what a 64-bit counter holds.
pub fn meter_frames(frames: &Vec<FrameEvent>) -> (t: u64)
    ensures
        t as nat == sat64(metered(frames@)),
{
    let mut total: u64 = 0;
    let mut stopped: bool = false;
    let mut i: usize = 0;
    proof {
        assert(frames@.take(0) =~= Seq::<FrameEvent>::empty());
    }
    while i < frames.len()
        invariant
            i <= frames.len(),
            stopped == has_fault(frames@.take(i as int)),
            total as nat == sat64(metered(frames@.take(i as int))),
        decreases frames.len() - i,
    {
        proof {
            assert(frames@.take(i + 1 as int) =~= frames@.take(i as int).push(frames@[i as int]));
            lemma_metered_push(frames@.take(i as int), frames@[i as int]);
            lemma_has_fault_push(frames@.take(i as int), frames@[i as int]);
        }
        if !stopped {
            match frames[i] {
                FrameEvent::Payload { len } => {
                    let l = len as u64;
                    if l <= u64::MAX - total {
                        total = total + l;
                    } else {
                        total = u64::MAX;
                    }
                },
                FrameEvent::Empty => {},
                FrameEvent::Fault => {
                    stopped = true;
                },
            }
        }
        i += 1;
    }
    proof {
        assert(frames@.take(frames@.len() as int) =~= frames@);
    }
    total
}

} // verus!
