//! Concurrent joins of two independent tasks: the plain pair join and the
//! pair join that maps each result through a caller-supplied function at the
//! terminal transition.

use vstd::prelude::*;
use crate::task::{Branch, Progress, Task};

verus! {

/// Concurrent join of two independent tasks. Each round advances branch `a`
/// first, then branch `b`; a branch's result is frozen the moment it arrives.
/// Once both branches are completed the node atomically becomes terminal and
/// yields the pair of results exactly once.
pub struct JoinFutures<A: Task, B: Task> {
    state: JoinState<A, B>,
}

enum JoinState<A: Task, B: Task> {
    Polling { a: Branch<A>, b: Branch<B> },
    Done { result: Ghost<(A::Output, B::Output)> },
}

/// Build the concurrent join of `a` and `b`, which yields both results once
/// both tasks finish.
pub fn join_futures<A: Task, B: Task>(a: A, b: B) -> (r: JoinFutures<A, B>)
    requires
        a.inv(),
        !a.done(),
        b.inv(),
        !b.done(),
    ensures
        r.inv(),
        !r.done(),
        r.a_value() == a.value(),
        r.b_value() == b.value(),
        r.a_decided() == a.decided(),
        r.b_decided() == b.decided(),
        r.decided() == (a.decided() && b.decided()),
        r.value() == (a.value(), b.value()),
        r.ready_now() == (a.ready_now() && b.ready_now()),
{
    JoinFutures { state: JoinState::Polling { a: Branch::Pending(a), b: Branch::Pending(b) } }
}

impl<A: Task, B: Task> JoinFutures<A, B> {
    /// The result branch `a` contributes: frozen once completed, otherwise
    /// the value its task will yield.
    pub closed spec fn a_value(&self) -> A::Output {
        match self.state {
            JoinState::Polling { a, .. } => a.value(),
            JoinState::Done { result } => result@.0,
        }
    }

    /// The result branch `b` contributes.
    pub closed spec fn b_value(&self) -> B::Output {
        match self.state {
            JoinState::Polling { b, .. } => b.value(),
            JoinState::Done { result } => result@.1,
        }
    }

    /// Branch `a`'s contribution is already determined.
    pub closed spec fn a_decided(&self) -> bool {
        match self.state {
            JoinState::Polling { a, .. } => a.decided(),
            JoinState::Done { .. } => true,
        }
    }

    /// Branch `b`'s contribution is already determined.
    pub closed spec fn b_decided(&self) -> bool {
        match self.state {
            JoinState::Polling { b, .. } => b.decided(),
            JoinState::Done { .. } => true,
        }
    }
}

impl<A: Task, B: Task> Task for JoinFutures<A, B> {
    type Output = (A::Output, B::Output);

    type Frame = ();

    closed spec fn inv(&self) -> bool {
        match self.state {
            JoinState::Polling { a, b } => a.inv() && b.inv() && !(a.is_completed()
                && b.is_completed()),
            JoinState::Done { .. } => true,
        }
    }

    closed spec fn done(&self) -> bool {
        self.state is Done
    }

    closed spec fn value(&self) -> (A::Output, B::Output) {
        match self.state {
            JoinState::Polling { a, b } => (a.value(), b.value()),
            JoinState::Done { result } => result@,
        }
    }

    closed spec fn decided(&self) -> bool {
        match self.state {
            JoinState::Polling { a, b } => a.decided() && b.decided(),
            JoinState::Done { .. } => true,
        }
    }

    closed spec fn frame(&self) -> () {
        ()
    }

    closed spec fn ready_now(&self) -> bool {
        match self.state {
            JoinState::Polling { a, b } => a.completes_now() && b.completes_now(),
            JoinState::Done { .. } => false,
        }
    }

    fn poll(&mut self) -> (p: Progress<(A::Output, B::Output)>)
        ensures
            old(self).a_decided() ==> final(self).a_decided() && final(self).a_value() == old(
                self,
            ).a_value(),
            old(self).b_decided() ==> final(self).b_decided() && final(self).b_value() == old(
                self,
            ).b_value(),
    {
        let both = match &mut self.state {
            JoinState::Polling { a, b } => {
                a.advance();
                b.advance();
                a.completed() && b.completed()
            },
            JoinState::Done { .. } => vstd::pervasive::unreached(),
        };
        if both {
            let mut st = JoinState::Done { result: Ghost(arbitrary()) };
            core::mem::swap(&mut self.state, &mut st);
            match st {
                JoinState::Polling { a: Branch::Completed(x), b: Branch::Completed(y) } => {
                    let out = (x, y);
                    self.state = JoinState::Done { result: Ghost(out) };
                    Progress::Ready(out)
                },
                _ => vstd::pervasive::unreached(),
            }
        } else {
            Progress::Pending
        }
    }

    fn is_done(&self) -> (r: bool) {
        match &self.state {
            JoinState::Done { .. } => true,
            _ => false,
        }
    }
}

/// Pair join that additionally maps each result through a caller-supplied
/// function. The polling discipline is identical to [`JoinFutures`]; `f` and
/// `g` are each applied exactly once, at the terminal transition — a branch
/// finishing early does not trigger its mapper until both are ready.
#[verifier::reject_recursive_types(AR2)]
#[verifier::reject_recursive_types(BR2)]
pub struct JoinFuturesBMap<A: Task, B: Task, AR2, BR2, F: FnOnce(
    A::Output,
) -> AR2, G: FnOnce(B::Output) -> BR2> {
    state: BMapState<A, B, AR2, BR2, F, G>,
}

#[verifier::reject_recursive_types(AR2)]
#[verifier::reject_recursive_types(BR2)]
enum BMapState<A: Task, B: Task, AR2, BR2, F: FnOnce(A::Output) -> AR2, G: FnOnce(
    B::Output,
) -> BR2> {
    Polling { a: Branch<A>, b: Branch<B>, f: F, g: G },
    Done {
        result: Ghost<(AR2, BR2)>,
        a_value: Ghost<A::Output>,
        b_value: Ghost<B::Output>,
        f0: Ghost<F>,
        g0: Ghost<G>,
    },
}

/// Build the join of `a` and `b` that, once both finish, yields the pair of
/// their results mapped through `f` and `g` respectively.
pub fn join_futures_bimap<A: Task, B: Task, AR2, BR2, F: FnOnce(A::Output) -> AR2, G: FnOnce(
    B::Output,
) -> BR2>(a: A, b: B, f: F, g: G) -> (r: JoinFuturesBMap<A, B, AR2, BR2, F, G>)
    requires
        a.inv(),
        !a.done(),
        b.inv(),
        !b.done(),
        forall|x: A::Output| #[trigger] call_requires(f, (x,)),
        forall|y: B::Output| #[trigger] call_requires(g, (y,)),
    ensures
        r.inv(),
        !r.done(),
        r.a_value() == a.value(),
        r.b_value() == b.value(),
        r.a_decided() == a.decided(),
        r.b_decided() == b.decided(),
        r.fst_fn() == f,
        r.snd_fn() == g,
        r.ready_now() == (a.ready_now() && b.ready_now()),
{
    JoinFuturesBMap {
        state: BMapState::Polling { a: Branch::Pending(a), b: Branch::Pending(b), f, g },
    }
}

impl<A: Task, B: Task, AR2, BR2, F: FnOnce(A::Output) -> AR2, G: FnOnce(B::Output) -> BR2> JoinFuturesBMap<
    A,
    B,
    AR2,
    BR2,
    F,
    G,
> {
    /// The result branch `a` contributes, before mapping.
    pub closed spec fn a_value(&self) -> A::Output {
        match self.state {
            BMapState::Polling { a, .. } => a.value(),
            BMapState::Done { a_value, .. } => a_value@,
        }
    }

    /// The result branch `b` contributes, before mapping.
    pub closed spec fn b_value(&self) -> B::Output {
        match self.state {
            BMapState::Polling { b, .. } => b.value(),
            BMapState::Done { b_value, .. } => b_value@,
        }
    }

    /// Branch `a`'s contribution is already determined.
    pub closed spec fn a_decided(&self) -> bool {
        match self.state {
            BMapState::Polling { a, .. } => a.decided(),
            BMapState::Done { .. } => true,
        }
    }

    /// Branch `b`'s contribution is already determined.
    pub closed spec fn b_decided(&self) -> bool {
        match self.state {
            BMapState::Polling { b, .. } => b.decided(),
            BMapState::Done { .. } => true,
        }
    }

    /// The mapper applied to branch `a`'s result.
    pub closed spec fn fst_fn(&self) -> F {
        match self.state {
            BMapState::Polling { f, .. } => f,
            BMapState::Done { f0, .. } => f0@,
        }
    }

    /// The mapper applied to branch `b`'s result.
    pub closed spec fn snd_fn(&self) -> G {
        match self.state {
            BMapState::Polling { g, .. } => g,
            BMapState::Done { g0, .. } => g0@,
        }
    }
}

impl<A: Task, B: Task, AR2, BR2, F: FnOnce(A::Output) -> AR2, G: FnOnce(B::Output) -> BR2> Task for JoinFuturesBMap<
    A,
    B,
    AR2,
    BR2,
    F,
    G,
> {
    type Output = (AR2, BR2);

    type Frame = (F, G);

    closed spec fn inv(&self) -> bool {
        match self.state {
            BMapState::Polling { a, b, f, g } => a.inv() && b.inv() && !(a.is_completed()
                && b.is_completed()) && (forall|x: A::Output| #[trigger] call_requires(f, (x,)))
                && (forall|y: B::Output| #[trigger] call_requires(g, (y,))),
            BMapState::Done { result, a_value, b_value, f0, g0 } => call_ensures(
                f0@,
                (a_value@,),
                result@.0,
            ) && call_ensures(g0@, (b_value@,), result@.1),
        }
    }

    closed spec fn done(&self) -> bool {
        self.state is Done
    }

    closed spec fn value(&self) -> (AR2, BR2) {
        match self.state {
            BMapState::Polling { .. } => arbitrary(),
            BMapState::Done { result, .. } => result@,
        }
    }

    closed spec fn decided(&self) -> bool {
        self.state is Done
    }

    open spec fn frame(&self) -> (F, G) {
        (self.fst_fn(), self.snd_fn())
    }

    closed spec fn ready_now(&self) -> bool {
        match self.state {
            BMapState::Polling { a, b, .. } => a.completes_now() && b.completes_now(),
            BMapState::Done { .. } => false,
        }
    }

    fn poll(&mut self) -> (p: Progress<(AR2, BR2)>)
        ensures
            old(self).a_decided() ==> final(self).a_decided() && final(self).a_value() == old(
                self,
            ).a_value(),
            old(self).b_decided() ==> final(self).b_decided() && final(self).b_value() == old(
                self,
            ).b_value(),
    {
        let both = match &mut self.state {
            BMapState::Polling { a, b, .. } => {
                a.advance();
                b.advance();
                a.completed() && b.completed()
            },
            BMapState::Done { .. } => vstd::pervasive::unreached(),
        };
        if both {
            let mut st = BMapState::Done {
                result: Ghost(arbitrary()),
                a_value: Ghost(arbitrary()),
                b_value: Ghost(arbitrary()),
                f0: Ghost(arbitrary()),
                g0: Ghost(arbitrary()),
            };
            core::mem::swap(&mut self.state, &mut st);
            match st {
                BMapState::Polling { a: Branch::Completed(x), b: Branch::Completed(y), f, g } => {
                    let ghost f0 = f;
                    let ghost g0 = g;
                    let ghost xv = x;
                    let ghost yv = y;
                    let out = (f(x), g(y));
                    self.state = BMapState::Done {
                        result: Ghost(out),
                        a_value: Ghost(xv),
                        b_value: Ghost(yv),
                        f0: Ghost(f0),
                        g0: Ghost(g0),
                    };
                    Progress::Ready(out)
                },
                _ => vstd::pervasive::unreached(),
            }
        } else {
            Progress::Pending
        }
    }

    fn is_done(&self) -> (r: bool) {
        match &self.state {
            BMapState::Done { .. } => true,
            _ => false,
        }
    }
}

/// What never changes about a mapped join are its two mappers: they are the
/// node's frame, which polling preserves.
pub proof fn join_futures_bimap_frame_is_mappers<A: Task, B: Task, AR2, BR2, F: FnOnce(
    A::Output,
) -> AR2, G: FnOnce(B::Output) -> BR2>(j: JoinFuturesBMap<A, B, AR2, BR2, F, G>)
    ensures
        j.frame() == (j.fst_fn(), j.snd_fn()),
{
}

/// A completed mapped join carries exactly the two branch results mapped
/// through functions that behave as `fspec` and `gspec`.
pub proof fn join_futures_bimap_exact<A: Task, B: Task, AR2, BR2, F: FnOnce(
    A::Output,
) -> AR2, G: FnOnce(B::Output) -> BR2>(
    j: JoinFuturesBMap<A, B, AR2, BR2, F, G>,
    fspec: spec_fn(A::Output) -> AR2,
    gspec: spec_fn(B::Output) -> BR2,
)
    requires
        j.inv(),
        j.done(),
        forall|x: A::Output, r: AR2| #[trigger] call_ensures(j.fst_fn(), (x,), r) ==> r == fspec(x),
        forall|y: B::Output, r: BR2| #[trigger] call_ensures(j.snd_fn(), (y,), r) ==> r == gspec(y),
    ensures
        j.value() == (fspec(j.a_value()), gspec(j.b_value())),
{
    match j.state {
        BMapState::Done { result, a_value, b_value, f0, g0 } => {
            assert(call_ensures(f0@, (a_value@,), result@.0));
            assert(call_ensures(g0@, (b_value@,), result@.1));
            assert(j.fst_fn() == f0@);
            assert(j.snd_fn() == g0@);
            assert(result@.0 == fspec(a_value@));
            assert(result@.1 == gspec(b_value@));
            assert(j.value() =~= (fspec(j.a_value()), gspec(j.b_value())));
        },
        BMapState::Polling { .. } => {
            assert(false);
        },
    }
}

/// Content independence of the pair join: whatever the interleaving in which
/// the two branches happen to finish, a well-formed join carries exactly the
/// pair of the branches' own results, before and after completion —
/// completion order never leaks into the value.
pub proof fn join_futures_content_independence<A: Task, B: Task>(j: JoinFutures<A, B>)
    requires
        j.inv(),
    ensures
        j.value() == (j.a_value(), j.b_value()),
{
}

} // verus!
