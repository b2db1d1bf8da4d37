//! The combining join: advance two tasks as a pair join does, then fuse both
//! results into one value with a caller-supplied binary function.

use vstd::prelude::*;
use crate::task::{Branch, Progress, Task};

verus! {

/// Pair-join semantics on `a` and `b`; on joint completion the binary
/// `combine` function is invoked exactly once, consuming it along with the
/// node state, and its result is the node's value.
#[verifier::reject_recursive_types(MR)]
pub struct CombineWith<A: Task, B: Task, MR, M: FnOnce(A::Output, B::Output) -> MR> {
    state: CombineState<A, B, MR, M>,
}

#[verifier::reject_recursive_types(MR)]
enum CombineState<A: Task, B: Task, MR, M: FnOnce(A::Output, B::Output) -> MR> {
    Polling { a: Branch<A>, b: Branch<B>, combine: M },
    Done {
        result: Ghost<MR>,
        a_value: Ghost<A::Output>,
        b_value: Ghost<B::Output>,
        combine0: Ghost<M>,
    },
}

/// Build the join of `a` and `b` whose value is `combine` of both results.
pub fn combine_with<A: Task, B: Task, MR, M: FnOnce(A::Output, B::Output) -> MR>(
    a: A,
    b: B,
    combine: M,
) -> (r: CombineWith<A, B, MR, M>)
    requires
        a.inv(),
        !a.done(),
        b.inv(),
        !b.done(),
        forall|x: A::Output, y: B::Output| #[trigger] call_requires(combine, (x, y)),
    ensures
        r.inv(),
        !r.done(),
        r.a_value() == a.value(),
        r.b_value() == b.value(),
        r.a_decided() == a.decided(),
        r.b_decided() == b.decided(),
        r.combine_fn() == combine,
        r.ready_now() == (a.ready_now() && b.ready_now()),
{
    CombineWith {
        state: CombineState::Polling { a: Branch::Pending(a), b: Branch::Pending(b), combine },
    }
}

impl<A: Task, B: Task, MR, M: FnOnce(A::Output, B::Output) -> MR> CombineWith<A, B, MR, M> {
    /// The result branch `a` contributes.
    pub closed spec fn a_value(&self) -> A::Output {
        match self.state {
            CombineState::Polling { a, .. } => a.value(),
            CombineState::Done { a_value, .. } => a_value@,
        }
    }

    /// The result branch `b` contributes.
    pub closed spec fn b_value(&self) -> B::Output {
        match self.state {
            CombineState::Polling { b, .. } => b.value(),
            CombineState::Done { b_value, .. } => b_value@,
        }
    }

    /// Branch `a`'s contribution is already determined.
    pub closed spec fn a_decided(&self) -> bool {
        match self.state {
            CombineState::Polling { a, .. } => a.decided(),
            CombineState::Done { .. } => true,
        }
    }

    /// Branch `b`'s contribution is already determined.
    pub closed spec fn b_decided(&self) -> bool {
        match self.state {
            CombineState::Polling { b, .. } => b.decided(),
            CombineState::Done { .. } => true,
        }
    }

    /// The binary function fusing the two results.
    pub closed spec fn combine_fn(&self) -> M {
        match self.state {
            CombineState::Polling { combine, .. } => combine,
            CombineState::Done { combine0, .. } => combine0@,
        }
    }
}

impl<A: Task, B: Task, MR, M: FnOnce(A::Output, B::Output) -> MR> Task for CombineWith<
    A,
    B,
    MR,
    M,
> {
    type Output = MR;

    type Frame = M;

    closed spec fn inv(&self) -> bool {
        match self.state {
            CombineState::Polling { a, b, combine } => a.inv() && b.inv() && !(a.is_completed()
                && b.is_completed()) && (forall|x: A::Output, y: B::Output| #[trigger]
            call_requires(combine, (x, y))),
            CombineState::Done { result, a_value, b_value, combine0 } => call_ensures(
                combine0@,
                (a_value@, b_value@),
                result@,
            ),
        }
    }

    closed spec fn done(&self) -> bool {
        self.state is Done
    }

    closed spec fn value(&self) -> MR {
        match self.state {
            CombineState::Polling { .. } => arbitrary(),
            CombineState::Done { result, .. } => result@,
        }
    }

    closed spec fn decided(&self) -> bool {
        self.state is Done
    }

    open spec fn frame(&self) -> M {
        self.combine_fn()
    }

    closed spec fn ready_now(&self) -> bool {
        match self.state {
            CombineState::Polling { a, b, .. } => a.completes_now() && b.completes_now(),
            CombineState::Done { .. } => false,
        }
    }

    fn poll(&mut self) -> (p: Progress<MR>)
        ensures
            old(self).a_decided() ==> final(self).a_decided() && final(self).a_value() == old(
                self,
            ).a_value(),
            old(self).b_decided() ==> final(self).b_decided() && final(self).b_value() == old(
                self,
            ).b_value(),
    {
        let both = match &mut self.state {
            CombineState::Polling { a, b, .. } => {
                a.advance();
                b.advance();
                a.completed() && b.completed()
            },
            CombineState::Done { .. } => vstd::pervasive::unreached(),
        };
        if both {
            let mut st = CombineState::Done {
                result: Ghost(arbitrary()),
                a_value: Ghost(arbitrary()),
                b_value: Ghost(arbitrary()),
                combine0: Ghost(arbitrary()),
            };
            core::mem::swap(&mut self.state, &mut st);
            match st {
                CombineState::Polling {
                    a: Branch::Completed(x),
                    b: Branch::Completed(y),
                    combine,
                } => {
                    let ghost combine0 = combine;
                    let ghost xv = x;
                    let ghost yv = y;
                    let v = combine(x, y);
                    self.state = CombineState::Done {
                        result: Ghost(v),
                        a_value: Ghost(xv),
                        b_value: Ghost(yv),
                        combine0: Ghost(combine0),
                    };
                    Progress::Ready(v)
                },
                _ => vstd::pervasive::unreached(),
            }
        } else {
            Progress::Pending
        }
    }

    fn is_done(&self) -> (r: bool) {
        match &self.state {
            CombineState::Done { .. } => true,
            _ => false,
        }
    }
}

/// What never changes about a combining join is its binary function: it is
/// the node's frame, which polling preserves.
pub proof fn combine_with_frame_is_combiner<A: Task, B: Task, MR, M: FnOnce(
    A::Output,
    B::Output,
) -> MR>(cw: CombineWith<A, B, MR, M>)
    ensures
        cw.frame() == cw.combine_fn(),
{
}

/// Determinism of the combining join: a completed node whose binary function
/// implements `mspec` carries exactly `mspec` of the two branch results —
/// the function ran exactly once, only after both branches had finished.
pub proof fn combine_with_exact<A: Task, B: Task, MR, M: FnOnce(A::Output, B::Output) -> MR>(
    cw: CombineWith<A, B, MR, M>,
    mspec: spec_fn(A::Output, B::Output) -> MR,
)
    requires
        cw.inv(),
        cw.done(),
        forall|x: A::Output, y: B::Output, r: MR| #[trigger] call_ensures(
            cw.combine_fn(),
            (x, y),
            r,
        ) ==> r == mspec(x, y),
    ensures
        cw.value() == mspec(cw.a_value(), cw.b_value()),
{
    match cw.state {
        CombineState::Done { result, a_value, b_value, combine0 } => {
            assert(call_ensures(combine0@, (a_value@, b_value@), result@));
            assert(cw.combine_fn() == combine0@);
        },
        _ => {
            assert(false);
        },
    }
}

} // verus!
