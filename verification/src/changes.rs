//! The sequence of state changes that a connection reports.
//!
//! The connection's idle loop sends each change it observes, or the failure it
//! met instead, down an unbounded channel. [`StateChanges`] owns the receiving
//! half and hands the messages on in the order in which they were sent. When the
//! channel reports that it is closed the sequence has ended, and it stays ended.

use vstd::prelude::*;
use core::task::{Context, Poll};
use tokio::sync::mpsc::UnboundedReceiver;
use crate::error::StateChangeError;
use crate::subsystem::Subsystem;

verus! {

/// What polling can answer, as the standard library defines it: a value that is
/// `Ready`, or `Pending`.
#[verifier::external_type_specification]
#[verifier::reject_recursive_types(T)]
pub struct ExPoll<T>(Poll<T>);

/// The context of the task that polls. It is handed on to the channel untouched.
#[verifier::external_type_specification]
#[verifier::external_body]
pub struct ExContext<'a>(Context<'a>);

/// The receiving half of an unbounded channel of `tokio`.
#[verifier::external_type_specification]
#[verifier::external_body]
#[verifier::reject_recursive_types(T)]
pub struct ExUnboundedReceiver<T>(UnboundedReceiver<T>);

/// `UnboundedReceiver::poll_recv` asks the channel for its next message. Which
/// of its three answers comes depends on what the sending side has done by
/// then, so nothing is claimed of the answer.
pub assume_specification<T>[ UnboundedReceiver::<T>::poll_recv ](
    rx: &mut UnboundedReceiver<T>,
    cx: &mut Context<'_>,
) -> (answer: Poll<Option<T>>);

/// Whether an answer says that the sequence is over.
pub open spec fn is_end<T>(answer: Poll<Option<T>>) -> bool {
    answer == Poll::Ready(None::<T>)
}

/// What the sequence hands to its consumer when the channel gives `answer`:
/// the answer itself while the sequence is open, the end once it has ended.
pub open spec fn handed_on<T>(ended: bool, answer: Poll<Option<T>>) -> Poll<Option<T>> {
    if ended {
        Poll::Ready(None::<T>)
    } else {
        answer
    }
}

/// Whether the sequence has ended once the channel has given `answer`.
pub open spec fn ended_after<T>(ended: bool, answer: Poll<Option<T>>) -> bool {
    ended || is_end(answer)
}

/// Whether the sequence has ended once the channel has given all of `answers`,
/// one after the other.
pub open spec fn ended_after_all<T>(ended: bool, answers: Seq<Poll<Option<T>>>) -> bool
    decreases answers.len(),
{
    if answers.len() == 0 {
        ended
    } else {
        ended_after(ended_after_all(ended, answers.drop_last()), answers.last())
    }
}

/// What the consumer gets from its poll number `i`, counted from zero, when the
/// channel's answers to the polls are `answers`.
pub open spec fn output<T>(ended: bool, answers: Seq<Poll<Option<T>>>, i: int) -> Poll<Option<T>>
    recommends
        0 <= i < answers.len(),
{
    handed_on(ended_after_all(ended, answers.take(i)), answers[i])
}

/// Decides one step of the sequence: from whether it has ended and what the
/// channel answered, what the consumer gets and whether the sequence has ended
/// now.
pub fn settle<T>(ended: bool, answer: Poll<Option<T>>) -> (step: (bool, Poll<Option<T>>))
    ensures
        step.0 == ended_after(ended, answer),
        step.1 == handed_on(ended, answer),
{
    if ended {
        (true, Poll::Ready(None))
    } else {
        match answer {
            Poll::Ready(None) => (true, Poll::Ready(None)),
            Poll::Ready(Some(item)) => (false, Poll::Ready(Some(item))),
            Poll::Pending => (false, Poll::Pending),
        }
    }
}

/// Stream of state change events.
///
/// The server emits these while the client idles. They serve to keep local
/// state such as the current volume or queue in step with the server. The
/// sequence ending means that the server closed the connection: no more events
/// will come, and a command sent on that connection will fail.
///
/// Who does not care about them can drop the value.
#[derive(Debug)]
pub struct StateChanges {
    rx: UnboundedReceiver<Result<Subsystem, StateChangeError>>,
    ended: bool,
}

impl StateChanges {
    /// Whether the sequence has ended.
    pub closed spec fn ended(&self) -> bool {
        self.ended
    }

    /// The channel from which the sequence takes its items.
    pub closed spec fn channel(&self) -> UnboundedReceiver<Result<Subsystem, StateChangeError>> {
        self.rx
    }

    /// Makes the sequence of what arrives on `rx`. It is open.
    pub fn new(rx: UnboundedReceiver<Result<Subsystem, StateChangeError>>) -> (changes: StateChanges)
        ensures
            !changes.ended(),
            changes.channel() == rx,
    {
        StateChanges { rx, ended: false }
    }

    /// Whether the sequence has ended, so that every poll from now on finds it
    /// ended.
    pub fn is_terminated(&self) -> (ended: bool)
        ensures
            ended == self.ended(),
    {
        self.ended
    }

    /// Polls for the next state change.
    ///
    /// While the sequence is open the channel is asked and its answer handed on
    /// as it is, an error like any other item; the answer that the channel is
    /// closed ends the sequence. Once ended, the sequence answers that it has
    /// ended and leaves the channel alone.
    pub fn poll_next(&mut self, cx: &mut Context<'_>) -> (out: Poll<
        Option<Result<Subsystem, StateChangeError>>,
    >)
        ensures
            old(self).ended() ==> is_end(out) && final(self).channel() == old(self).channel(),
            final(self).ended() == is_end(out),
    {
        if self.ended {
            return Poll::Ready(None);
        }
        let answer = self.rx.poll_recv(cx);
        let (ended, out) = settle(false, answer);
        self.ended = ended;
        out
    }
}

/// What has ended stays ended, whatever the channel answers afterwards.
pub proof fn lemma_ended_stays_ended<T>(ended: bool, answers: Seq<Poll<Option<T>>>, i: int, j: int)
    requires
        0 <= i <= j <= answers.len(),
        ended_after_all(ended, answers.take(i)),
    ensures
        ended_after_all(ended, answers.take(j)),
    decreases j - i,
{
    if i < j {
        lemma_ended_stays_ended(ended, answers, i, j - 1);
        assert(answers.take(j).drop_last() =~= answers.take(j - 1));
    }
}

/// Once a poll has found the end, every later poll finds the end: the end of
/// the sequence is final.
pub proof fn lemma_end_is_final<T>(ended: bool, answers: Seq<Poll<Option<T>>>, i: int, j: int)
    requires
        0 <= i <= j < answers.len(),
        is_end(output(ended, answers, i)),
    ensures
        is_end(output(ended, answers, j)),
{
    if i < j {
        assert(answers.take(i + 1).drop_last() =~= answers.take(i));
        assert(answers.take(i + 1).last() == answers[i]);
        assert(ended_after_all(ended, answers.take(i + 1)));
        lemma_ended_stays_ended(ended, answers, i + 1, j);
    }
}

/// A sequence that has ended answers every poll with the end.
pub proof fn lemma_ended_only_ends<T>(answers: Seq<Poll<Option<T>>>, i: int)
    requires
        0 <= i < answers.len(),
    ensures
        is_end(output(true, answers, i)),
{
    assert(answers.take(0) =~= Seq::<Poll<Option<T>>>::empty());
    lemma_ended_stays_ended(true, answers, 0, i);
}

/// An open sequence stays open as long as the channel has not answered that it
/// is closed.
pub proof fn lemma_open_until_end<T>(answers: Seq<Poll<Option<T>>>, i: int)
    requires
        0 <= i <= answers.len(),
        forall|k: int| 0 <= k < i ==> !is_end(#[trigger] answers[k]),
    ensures
        !ended_after_all(false, answers.take(i)),
    decreases i,
{
    if i > 0 {
        lemma_open_until_end(answers, i - 1);
        assert(answers.take(i).drop_last() =~= answers.take(i - 1));
        assert(answers.take(i).last() == answers[i - 1]);
    }
}

/// Up to and including the channel's first answer that it is closed, the
/// consumer gets the channel's answers themselves, one for one and in their
/// order: nothing is held back, merged or moved, and an error is handed on like
/// any other item without ending the sequence.
pub proof fn lemma_answers_handed_on_in_order<T>(answers: Seq<Poll<Option<T>>>, i: int)
    requires
        0 <= i < answers.len(),
        forall|k: int| 0 <= k < i ==> !is_end(#[trigger] answers[k]),
    ensures
        output(false, answers, i) == answers[i],
{
    lemma_open_until_end(answers, i);
}

/// An item does not end the sequence, whether it is a change or an error, and
/// neither does an answer that nothing is there yet.
pub proof fn lemma_only_closure_ends<T>(item: T)
    ensures
        !is_end(Poll::Ready(Some(item))),
        !is_end(Poll::<Option<T>>::Pending),
        ended_after(false, Poll::Ready(Some(item))) == false,
        handed_on(false, Poll::Ready(Some(item))) == Poll::Ready(Some(item)),
{
}

} // verus!
