use vstd::prelude::*;

verus! {

/// Where startup stands: nothing done yet, root key pair generated, root
/// certificate self-signed, listener bound and accepting, or halted by a
/// fatal failure.
#[derive(Clone, Copy, PartialEq, Eq, Structural, Debug)]
pub enum StartupState {
    Init,
    KeyReady,
    CertReady,
    Accepting,
    Halted,
}

/// What the environment reports back while starting up.
#[derive(Clone, Copy, PartialEq, Eq, Structural, Debug)]
pub enum StartupEvent {
    KeyGenerated,
    KeyGenFailed,
    CertSigned,
    CertSignFailed,
    ListenerBound,
    ListenerBindFailed,
}

/// Whether binding the listener is allowed in a state: only once the root
/// material is complete, and never after a fatal failure.
pub open spec fn bind_permitted(s: StartupState) -> bool {
    s == StartupState::CertReady
}

/// The startup transition relation: key pair, self-signed root, listener,
/// strictly in that order.  Any failure — and any out-of-order event —
/// halts for good; there is no retry.
pub open spec fn startup_step(s: StartupState, e: StartupEvent) -> StartupState {
    match (s, e) {
        (StartupState::Init, StartupEvent::KeyGenerated) => StartupState::KeyReady,
        (StartupState::KeyReady, StartupEvent::CertSigned) => StartupState::CertReady,
        (StartupState::CertReady, StartupEvent::ListenerBound) => StartupState::Accepting,
        (_, _) => StartupState::Halted,
    }
}

/// The state reached after a whole event sequence.
pub open spec fn startup_run(s: StartupState, events: Seq<StartupEvent>) -> StartupState
    decreases events.len(),
{
    if events.len() == 0 {
        s
    } else {
        startup_run(startup_step(s, events[0]), events.skip(1))
    }
}

/// One startup transition, as the driving loop takes it.
pub fn startup_next(s: StartupState, e: StartupEvent) -> (r: StartupState)
    ensures
        r == startup_step(s, e),
{
    match (s, e) {
        (StartupState::Init, StartupEvent::KeyGenerated) => StartupState::KeyReady,
        (StartupState::KeyReady, StartupEvent::CertSigned) => StartupState::CertReady,
        (StartupState::CertReady, StartupEvent::ListenerBound) => StartupState::Accepting,
        (_, _) => StartupState::Halted,
    }
}

/// Whether the driving loop may bind the listener now.
pub fn may_bind(s: StartupState) -> (b: bool)
    ensures
        b == bind_permitted(s),
{
    match s {
        StartupState::CertReady => true,
        _ => false,
    }
}

/// A halted startup stays halted, whatever else is reported.
pub proof fn lemma_halted_absorbing(events: Seq<StartupEvent>)
    ensures
        startup_run(StartupState::Halted, events) == StartupState::Halted,
    decreases events.len(),
{
    if events.len() > 0 {
        lemma_halted_absorbing(events.skip(1));
    }
}

/// Law: if root key-pair generation fails, no listener is ever bound.
/// After such a first report, every state startup can reach — at any later
/// point `i` of the event sequence — refuses binding.
pub proof fn lemma_keygen_failure_never_binds(events: Seq<StartupEvent>, i: int)
    requires
        events.len() > 0,
        events[0] == StartupEvent::KeyGenFailed,
        0 <= i <= events.len(),
    ensures
        !bind_permitted(startup_run(StartupState::Init, events.take(i))),
{
    if i == 0 {
        assert(events.take(0) =~= Seq::<StartupEvent>::empty());
    } else {
        let pre = events.take(i);
        assert(pre[0] == StartupEvent::KeyGenFailed);
        assert(startup_step(StartupState::Init, pre[0]) == StartupState::Halted);
        lemma_halted_absorbing(pre.skip(1));
    }
}

} // verus!
