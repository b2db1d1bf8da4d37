//! The task capability contract and the shared per-branch state scaffolding.

use vstd::prelude::*;

verus! {

/// What one progress check reports: either the task has not finished yet, or
/// it hands over its final value, exactly once.
pub enum Progress<T> {
    Pending,
    Ready(T),
}

/// The capability every unit of suspended work offers: attempt to make
/// progress and report either *not yet* or the final value.
///
/// The specification models a task by four observations. `inv` is the node's
/// internal well-formedness. `done` says whether the task has already handed
/// over its final value; a task that is `done` must never be polled again.
/// That is a contract violation, not a recoverable error: the precondition
/// of `poll` rules it out for verified callers, and the terminal match arms
/// abort the process should an unchecked caller reach them anyway.
/// `value` is the final value the task yields, and `decided` says whether
/// that value is already determined by the current state (a timer holding its
/// payload is decided from birth; a node that still has to run a
/// caller-supplied function is not decided before the function has run).
/// While a task stays decided, polling never changes its value, and the value
/// it eventually yields is exactly `value`. Finally, `ready_now` says that
/// the very next poll hands the value over: a sufficient condition, never a
/// necessary one, so a task may also yield out of a state that did not
/// promise it.
pub trait Task: Sized {
    type Output;

    /// What polling never changes about a node: for a combinator holding a
    /// caller-supplied function, the function itself. A node with nothing
    /// fixed uses the unit type.
    type Frame;

    /// Well-formedness of the node's internal state.
    spec fn inv(&self) -> bool;

    /// The task has reported its final value and holds nothing further.
    spec fn done(&self) -> bool;

    /// The final value; meaningful once `decided` holds.
    spec fn value(&self) -> Self::Output;

    /// The final value is already determined by the current state.
    spec fn decided(&self) -> bool;

    /// The task's fixed frame; polling never changes it.
    spec fn frame(&self) -> Self::Frame;

    /// The next poll yields the final value. One-sided: a task whose state
    /// does not satisfy this may still yield.
    spec fn ready_now(&self) -> bool;

    /// Attempt to make progress. Reports `Pending`, or `Ready` with the final
    /// value, after which the task is terminal and must not be polled again.
    fn poll(&mut self) -> (p: Progress<Self::Output>)
        requires
            old(self).inv(),
            !old(self).done(),
        ensures
            final(self).inv(),
            final(self).frame() == old(self).frame(),
            old(self).decided() ==> final(self).decided(),
            old(self).decided() ==> final(self).value() == old(self).value(),
            old(self).ready_now() ==> p is Ready,
            match p {
                Progress::Pending => !final(self).done(),
                Progress::Ready(v) => final(self).done() && final(self).decided() && v
                    == final(self).value(),
            },
    ;

    /// Whether the task is terminal, so a driver can stop polling it.
    fn is_done(&self) -> (r: bool)
        ensures
            r == self.done(),
    ;
}

/// The state of one sub-task slot inside a combinator node.
///
/// A slot only ever moves forward: `Pending` holds the not-yet-finished task,
/// `Completed` holds its frozen result, and `Consumed` marks a slot whose
/// result has been transferred out on the node's terminal transition. A live
/// node never rests on a `Consumed` slot, which is why `inv` rejects it.
pub enum Branch<T: Task> {
    Pending(T),
    Completed(T::Output),
    Consumed,
}

impl<T: Task> Branch<T> {
    /// A slot is healthy while its task is, and is never left `Consumed`
    /// between progress rounds.
    pub open spec fn inv(&self) -> bool {
        match self {
            Branch::Pending(t) => t.inv() && !t.done(),
            Branch::Completed(_) => true,
            Branch::Consumed => false,
        }
    }

    /// The slot holds a frozen result.
    pub open spec fn is_completed(&self) -> bool {
        self is Completed
    }

    /// The result this slot contributes: the frozen result once completed,
    /// otherwise the value its task will yield.
    pub open spec fn value(&self) -> T::Output {
        match self {
            Branch::Pending(t) => t.value(),
            Branch::Completed(x) => *x,
            Branch::Consumed => arbitrary(),
        }
    }

    /// Whether the contributed result is already determined.
    pub open spec fn decided(&self) -> bool {
        match self {
            Branch::Pending(t) => t.decided(),
            Branch::Completed(_) => true,
            Branch::Consumed => false,
        }
    }

    /// The slot is frozen after one more round: it already holds a result,
    /// or its task yields on the next poll.
    pub open spec fn completes_now(&self) -> bool {
        match self {
            Branch::Pending(t) => t.ready_now(),
            Branch::Completed(_) => true,
            Branch::Consumed => false,
        }
    }

    /// Advance the slot one round: poll a pending task and freeze its result
    /// the moment it arrives; a completed slot is left untouched.
    pub fn advance(&mut self)
        requires
            old(self).inv(),
        ensures
            final(self).inv(),
            old(self).decided() ==> final(self).decided(),
            old(self).decided() ==> final(self).value() == old(self).value(),
            old(self).is_completed() ==> *final(self) == *old(self),
            old(self).completes_now() ==> final(self).is_completed(),
    {
        match self {
            Branch::Pending(t) => {
                match t.poll() {
                    Progress::Ready(v) => {
                        *self = Branch::Completed(v);
                    },
                    Progress::Pending => {},
                }
            },
            _ => {},
        }
    }

    /// Whether the slot holds a frozen result.
    pub fn completed(&self) -> (r: bool)
        ensures
            r == self.is_completed(),
    {
        match self {
            Branch::Completed(_) => true,
            _ => false,
        }
    }
}

/// Some terminal state of a `T` task carries the value `v`. A combinator
/// that relays a sub-task's result owes its callers such a state: a value
/// can be attributed to a branch only if the branch could actually have
/// completed with it.
pub open spec fn some_completed_task_yields<T: Task>(v: T::Output) -> bool {
    exists|t: T| #[trigger] t.done() && t.value() == v
}

/// Hands its argument back unchanged.
pub fn identity<T>(id: T) -> (r: T)
    ensures
        r == id,
{
    id
}

} // verus!
