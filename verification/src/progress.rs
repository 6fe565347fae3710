//! The per-request message protocol: a send endpoint that can emit only
//! monotone progress messages, and a terminal step that consumes it, so a
//! request's stream is always zero or more non-decreasing progress fractions
//! followed by exactly one terminal message.

use vstd::prelude::*;

use crate::RecvMsg;

verus! {

#[verifier::external_type_specification]
#[verifier::external_body]
#[verifier::reject_recursive_types(T)]
pub struct ExSender<T>(crossbeam_channel::Sender<T>);

#[verifier::external_type_specification]
#[verifier::external_body]
#[verifier::reject_recursive_types(T)]
pub struct ExReceiver<T>(crossbeam_channel::Receiver<T>);

#[verifier::external_type_specification]
#[verifier::external_body]
#[verifier::reject_recursive_types(T)]
pub struct ExSendError<T>(crossbeam_channel::SendError<T>);

/// Relies on crossbeam_channel::unbounded: returns the two endpoints of a
/// fresh unbounded channel.
pub assume_specification<T>[ crossbeam_channel::unbounded::<T> ]() -> (r: (
    crossbeam_channel::Sender<T>,
    crossbeam_channel::Receiver<T>,
));

/// Relies on crossbeam_channel::Sender::send: hands the message to the
/// channel; it fails only when every receiver is gone, and either way the
/// channel's state is invisible here.
pub assume_specification<T>[ crossbeam_channel::Sender::<T>::send ](
    s: &crossbeam_channel::Sender<T>,
    msg: T,
) -> (r: Result<(), crossbeam_channel::SendError<T>>);

/// A progress message, as opposed to a terminal one.
pub open spec fn is_progress(m: RecvMsg) -> bool {
    m matches RecvMsg::ReadProgress(_)
}

/// A terminal message: the single `ReadDone` or `Error` that ends a request.
pub open spec fn is_terminal(m: RecvMsg) -> bool {
    m matches RecvMsg::ReadDone(_) || m matches RecvMsg::Error(_)
}

/// The fraction carried by a progress message, as a percentage.
pub open spec fn progress_pct(m: RecvMsg) -> u32 {
    match m {
        RecvMsg::ReadProgress(p) => p,
        _ => 0,
    }
}

/// A well-formed request stream: every message but the last is a progress
/// message, the fractions are non-decreasing and lie within the unit
/// interval, and the last message is the one terminal.
pub open spec fn valid_trace(t: Seq<RecvMsg>) -> bool {
    &&& t.len() >= 1
    &&& is_terminal(t.last())
    &&& forall|i: int| 0 <= i < t.len() - 1 ==> is_progress(#[trigger] t[i])
    &&& forall|i: int| 0 <= i < t.len() - 1 ==> progress_pct(#[trigger] t[i]) <= 100
    &&& forall|i: int, j: int|
        0 <= i <= j < t.len() - 1 ==> progress_pct(#[trigger] t[i]) <= progress_pct(
            #[trigger] t[j],
        )
}

/// The send side of one request's result channel, restricted so that the
/// emitted stream obeys the protocol: only progress messages can be sent,
/// never above 100 and never decreasing, until the endpoint is consumed by
/// its one terminal message.
pub struct ProgressSender {
    sender: crossbeam_channel::Sender<RecvMsg>,
    last: u32,
    history: Ghost<Seq<RecvMsg>>,
}

impl ProgressSender {
    /// The messages handed to the channel so far, in order.
    pub closed spec fn history(self) -> Seq<RecvMsg> {
        self.history@
    }

    /// The largest progress percentage emitted so far.
    pub closed spec fn last_pct(self) -> u32 {
        self.last
    }

    #[verifier::type_invariant]
    spec fn wf(self) -> bool {
        &&& self.last <= 100
        &&& forall|i: int| 0 <= i < self.history@.len() ==> is_progress(#[trigger] self.history@[i])
        &&& forall|i: int|
            0 <= i < self.history@.len() ==> progress_pct(#[trigger] self.history@[i])
                <= self.last
        &&& forall|i: int, j: int|
            0 <= i <= j < self.history@.len() ==> progress_pct(#[trigger] self.history@[i])
                <= progress_pct(#[trigger] self.history@[j])
    }

    /// Wrap the send side of a fresh result channel.
    pub fn new(sender: crossbeam_channel::Sender<RecvMsg>) -> (r: Self)
        ensures
            r.history() =~= Seq::<RecvMsg>::empty(),
            r.last_pct() == 0,
    {
        ProgressSender { sender, last: 0, history: Ghost(Seq::empty()) }
    }

    /// Emit a progress message. A fraction above 100 is clamped, one below
    /// the last emitted fraction is dropped, so the stream stays monotone
    /// whatever a driver does. Returns whether the channel accepted the
    /// message; a dropped message was never offered, so nothing was
    /// refused and the answer is then `true` (the channel refuses only
    /// once the receiver is gone, which a load treats as silent
    /// termination).
    pub fn send_progress(&mut self, pct: u32) -> (delivered: bool)
        ensures
            ({
                let p: u32 = if pct > 100 {
                    100u32
                } else {
                    pct
                };
                if p >= old(self).last_pct() {
                    &&& final(self).history() =~= old(self).history().push(
                        RecvMsg::ReadProgress(p),
                    )
                    &&& final(self).last_pct() == p
                } else {
                    &&& final(self).history() == old(self).history()
                    &&& final(self).last_pct() == old(self).last_pct()
                    &&& delivered == true
                }
            }),
    {
        proof {
            use_type_invariant(&*self);
        }
        let p: u32 = if pct > 100 {
            100
        } else {
            pct
        };
        if p >= self.last {
            let delivered = self.sender.send(RecvMsg::ReadProgress(p)).is_ok();
            self.last = p;
            proof {
                self.history@ = self.history@.push(RecvMsg::ReadProgress(p));
            }
            delivered
        } else {
            true
        }
    }

    /// Note that the endpoint's history holds progress messages alone,
    /// whoever held it — a driver included: the one terminal message is
    /// `finish`'s, and `finish` consumes the endpoint.
    pub fn note_progress_only(&self)
        ensures
            forall|i: int|
                0 <= i < self.history().len() ==> is_progress(#[trigger] self.history()[i]),
    {
        proof {
            use_type_invariant(self);
        }
    }

    /// Emit the request's one terminal message and give up the endpoint;
    /// nothing can follow it. The returned ghost trace is the request's
    /// whole stream, and it is always well formed.
    pub fn finish(self, msg: RecvMsg) -> (t: Ghost<Seq<RecvMsg>>)
        requires
            is_terminal(msg),
        ensures
            t@ =~= self.history().push(msg),
            valid_trace(t@),
    {
        proof {
            use_type_invariant(&self);
        }
        let ghost t = self.history@.push(msg);
        let _ = self.sender.send(msg);
        Ghost(t)
    }
}

/// *Terminal exactly once.* In a well-formed request stream there is exactly
/// one terminal message, and no message follows it: whoever receives the
/// stream of a completed request observes a single `ReadDone` or `Error`
/// and nothing after it.
pub proof fn lemma_terminal_exactly_once(t: Seq<RecvMsg>)
    requires
        valid_trace(t),
    ensures
        is_terminal(t[t.len() - 1]),
        forall|i: int| 0 <= i < t.len() && is_terminal(#[trigger] t[i]) ==> i == t.len() - 1,
{
    assert forall|i: int| 0 <= i < t.len() && is_terminal(#[trigger] t[i]) implies i == t.len()
        - 1 by {
        if i < t.len() - 1 {
            assert(is_progress(t[i]));
        }
    }
}

/// *Progress monotonicity.* In a well-formed request stream the progress
/// fractions are non-decreasing and lie within the unit interval.
pub proof fn lemma_progress_monotone(t: Seq<RecvMsg>)
    requires
        valid_trace(t),
    ensures
        forall|i: int|
            0 <= i < t.len() - 1 ==> progress_pct(#[trigger] t[i]) <= 100,
        forall|i: int, j: int|
            0 <= i <= j < t.len() - 1 ==> progress_pct(#[trigger] t[i]) <= progress_pct(
                #[trigger] t[j],
            ),
{
}

} // verus!
