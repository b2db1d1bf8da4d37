//! The fallible join: a pair join in which each branch can itself fail. The
//! first failure observed — in fixed branch-check order, `a` before `b`,
//! every round — short-circuits the whole node; the other branch's in-flight
//! work is simply abandoned by dropping its owning slot.

use vstd::prelude::*;
use crate::task::{some_completed_task_yields, Progress, Task};

verus! {

/// The state of one fallible sub-task slot: the not-yet-finished task, the
/// frozen success payload, or a slot whose content has been transferred out
/// on the terminal transition.
#[verifier::reject_recursive_types(AR)]
#[verifier::reject_recursive_types(E)]
enum FallibleBranch<AR, E, T: Task<Output = Result<AR, E>>> {
    Pending(T),
    Completed(AR),
    Consumed,
}

impl<AR, E, T: Task<Output = Result<AR, E>>> FallibleBranch<AR, E, T> {
    spec fn inv(&self) -> bool {
        match self {
            FallibleBranch::Pending(t) => t.inv() && !t.done(),
            FallibleBranch::Completed(_) => true,
            FallibleBranch::Consumed => false,
        }
    }

    spec fn is_completed(&self) -> bool {
        self is Completed
    }

    /// The result this slot contributes; a frozen slot always carries a
    /// success.
    spec fn value(&self) -> Result<AR, E> {
        match self {
            FallibleBranch::Pending(t) => t.value(),
            FallibleBranch::Completed(x) => Result::Ok(*x),
            FallibleBranch::Consumed => arbitrary(),
        }
    }

    spec fn decided(&self) -> bool {
        match self {
            FallibleBranch::Pending(t) => t.decided(),
            FallibleBranch::Completed(_) => true,
            FallibleBranch::Consumed => false,
        }
    }

    /// One more round leaves this slot failed: its task yields its error on
    /// the next poll.
    spec fn fails_now(&self) -> bool {
        match self {
            FallibleBranch::Pending(t) => t.ready_now() && t.decided() && t.value() is Err,
            _ => false,
        }
    }

    /// One more round leaves this slot frozen on a success.
    spec fn yields_ok_now(&self) -> bool {
        match self {
            FallibleBranch::Pending(t) => t.ready_now() && t.decided() && t.value() is Ok,
            FallibleBranch::Completed(_) => true,
            FallibleBranch::Consumed => false,
        }
    }

    fn completed(&self) -> (r: bool)
        ensures
            r == self.is_completed(),
    {
        match self {
            FallibleBranch::Completed(_) => true,
            _ => false,
        }
    }
}

/// Concurrent join of two fallible tasks. Both branches are advanced every
/// round, `a` strictly before `b`; a branch's success is frozen, while the
/// first failure observed in that fixed order makes the whole node terminal
/// at once with that error, abandoning the other branch.
#[verifier::reject_recursive_types(AR)]
#[verifier::reject_recursive_types(BR)]
#[verifier::reject_recursive_types(E)]
pub struct TryJoin<A, B, AR, BR, E> where
    A: Task<Output = Result<AR, E>>,
    B: Task<Output = Result<BR, E>>,
 {
    state: TryState<A, B, AR, BR, E>,
}

#[verifier::reject_recursive_types(AR)]
#[verifier::reject_recursive_types(BR)]
#[verifier::reject_recursive_types(E)]
enum TryState<A, B, AR, BR, E> where
    A: Task<Output = Result<AR, E>>,
    B: Task<Output = Result<BR, E>>,
 {
    Polling { a: FallibleBranch<AR, E, A>, b: FallibleBranch<BR, E, B> },
    Done {
        result: Ghost<Result<(AR, BR), E>>,
        a_value: Ghost<Result<AR, E>>,
        b_value: Ghost<Result<BR, E>>,
    },
}

/// Build the fallible join of `a` and `b`: success carries both payloads,
/// and the first failure observed in branch-check order is relayed opaquely.
pub fn try_join<A, B, AR, BR, E>(a: A, b: B) -> (r: TryJoin<A, B, AR, BR, E>) where
    A: Task<Output = Result<AR, E>>,
    B: Task<Output = Result<BR, E>>,

    requires
        a.inv(),
        !a.done(),
        b.inv(),
        !b.done(),
    ensures
        r.inv(),
        !r.done(),
        r.a_value() == a.value(),
        r.b_value() == b.value(),
        r.a_decided() == a.decided(),
        r.b_decided() == b.decided(),
        r.decided() == (a.decided() && b.decided() && !(a.value() is Err && b.value() is Err)),
        a.value() matches Result::Ok(x) ==> (b.value() matches Result::Ok(y) ==> r.value()
            == Result::<(AR, BR), E>::Ok((x, y))),
        a.value() matches Result::Err(e) ==> (b.value() is Ok ==> r.value() == Result::<
            (AR, BR),
            E,
        >::Err(e)),
        b.value() matches Result::Err(e) ==> (a.value() is Ok ==> r.value() == Result::<
            (AR, BR),
            E,
        >::Err(e)),
        r.ready_now() == ((a.ready_now() && a.decided() && a.value() is Err) || ((a.ready_now()
            && a.decided() && a.value() is Ok) && (b.ready_now() && b.decided()))),
        r.a_fails_now() == (a.ready_now() && a.decided() && a.value() is Err),
        r.b_fails_now() == (b.ready_now() && b.decided() && b.value() is Err),
        r.a_succeeds_now() == (a.ready_now() && a.decided() && a.value() is Ok),
{
    TryJoin {
        state: TryState::Polling { a: FallibleBranch::Pending(a), b: FallibleBranch::Pending(b) },
    }
}

impl<A, B, AR, BR, E> TryJoin<A, B, AR, BR, E> where
    A: Task<Output = Result<AR, E>>,
    B: Task<Output = Result<BR, E>>,
 {
    /// The result branch `a` contributes.
    pub closed spec fn a_value(&self) -> Result<AR, E> {
        match self.state {
            TryState::Polling { a, .. } => a.value(),
            TryState::Done { a_value, .. } => a_value@,
        }
    }

    /// The result branch `b` contributes.
    pub closed spec fn b_value(&self) -> Result<BR, E> {
        match self.state {
            TryState::Polling { b, .. } => b.value(),
            TryState::Done { b_value, .. } => b_value@,
        }
    }

    /// Branch `a`'s contribution is already determined.
    pub closed spec fn a_decided(&self) -> bool {
        match self.state {
            TryState::Polling { a, .. } => a.decided(),
            TryState::Done { .. } => true,
        }
    }

    /// Branch `b`'s contribution is already determined.
    pub closed spec fn b_decided(&self) -> bool {
        match self.state {
            TryState::Polling { b, .. } => b.decided(),
            TryState::Done { .. } => true,
        }
    }

    /// Branch `a` fails on this very round: its task is settled on an error
    /// and yields it on the next poll.
    pub closed spec fn a_fails_now(&self) -> bool {
        match self.state {
            TryState::Polling { a, .. } => a.fails_now(),
            TryState::Done { .. } => false,
        }
    }

    /// Branch `b` fails on this very round.
    pub closed spec fn b_fails_now(&self) -> bool {
        match self.state {
            TryState::Polling { b, .. } => b.fails_now(),
            TryState::Done { .. } => false,
        }
    }

    /// Branch `a` is frozen on a success after this round: it already holds
    /// one, or its task is settled on one and yields it on the next poll.
    pub closed spec fn a_succeeds_now(&self) -> bool {
        match self.state {
            TryState::Polling { a, .. } => a.yields_ok_now(),
            TryState::Done { .. } => false,
        }
    }
}

impl<A, B, AR, BR, E> Task for TryJoin<A, B, AR, BR, E> where
    A: Task<Output = Result<AR, E>>,
    B: Task<Output = Result<BR, E>>,
 {
    type Output = Result<(AR, BR), E>;

    type Frame = ();

    closed spec fn inv(&self) -> bool {
        match self.state {
            TryState::Polling { a, b } => a.inv() && b.inv() && !(a.is_completed()
                && b.is_completed()),
            TryState::Done { result, a_value, b_value } => match (a_value@, b_value@) {
                (Result::Ok(x), Result::Ok(y)) => result@ == Result::<(AR, BR), E>::Ok((x, y)),
                (Result::Err(e), Result::Ok(_)) => result@ == Result::<(AR, BR), E>::Err(e)
                    && some_completed_task_yields::<A>(a_value@),
                (Result::Ok(_), Result::Err(e)) => result@ == Result::<(AR, BR), E>::Err(e)
                    && some_completed_task_yields::<B>(b_value@),
                (Result::Err(ea), Result::Err(eb)) => (result@ == Result::<(AR, BR), E>::Err(ea)
                    && some_completed_task_yields::<A>(a_value@)) || (result@ == Result::<
                    (AR, BR),
                    E,
                >::Err(eb) && some_completed_task_yields::<B>(b_value@)),
            },
        }
    }

    closed spec fn done(&self) -> bool {
        self.state is Done
    }

    closed spec fn value(&self) -> Result<(AR, BR), E> {
        match self.state {
            TryState::Polling { a, b } => match (a.value(), b.value()) {
                (Result::Ok(x), Result::Ok(y)) => Result::Ok((x, y)),
                (Result::Err(e), Result::Ok(_)) => Result::Err(e),
                (Result::Ok(_), Result::Err(e)) => Result::Err(e),
                (Result::Err(_), Result::Err(_)) => arbitrary(),
            },
            TryState::Done { result, .. } => result@,
        }
    }

    closed spec fn decided(&self) -> bool {
        match self.state {
            TryState::Polling { a, b } => a.decided() && b.decided() && !(a.value() is Err
                && b.value() is Err),
            TryState::Done { .. } => true,
        }
    }

    closed spec fn frame(&self) -> () {
        ()
    }

    closed spec fn ready_now(&self) -> bool {
        match self.state {
            TryState::Polling { a, b } => a.fails_now() || (a.yields_ok_now() && (b.fails_now()
                || b.yields_ok_now())),
            TryState::Done { .. } => false,
        }
    }

    fn poll(&mut self) -> (p: Progress<Result<(AR, BR), E>>)
        ensures
            old(self).a_decided() ==> final(self).a_decided() && final(self).a_value() == old(
                self,
            ).a_value(),
            old(self).b_decided() ==> final(self).b_decided() && final(self).b_value() == old(
                self,
            ).b_value(),
// the first failure observed in fixed branch-check order wins the
// round: a failing branch `a` short-circuits at once, whatever `b`
// holds, and `b`'s failure is reported the moment `a`'s success is
// out of the way
            old(self).a_fails_now() ==> (old(self).a_value() matches Result::Err(e) ==> p
                == Progress::<Result<(AR, BR), E>>::Ready(Result::Err(e))),
            old(self).a_succeeds_now() && old(self).b_fails_now() ==> (old(
                self,
            ).b_value() matches Result::Err(e) ==> p == Progress::<Result<(AR, BR), E>>::Ready(
                Result::Err(e),
            )),
    {
        let ghost mut a_wit: A = arbitrary();
        let a_err: Option<E> = match &mut self.state {
            TryState::Polling { a, .. } => {
                match a {
                    FallibleBranch::Pending(t) => match t.poll() {
                        Progress::Pending => None,
                        Progress::Ready(res) => match res {
                            Result::Ok(v) => {
                                *a = FallibleBranch::Completed(v);
                                None
                            },
                            Result::Err(e) => {
                                proof {
                                    a_wit = *t;
                                }
                                Some(e)
                            },
                        },
                    },
                    _ => None,
                }
            },
            TryState::Done { .. } => vstd::pervasive::unreached(),
        };
        if let Some(e) = a_err {
            let ghost bv = self.b_value();
            let ghost e0 = e;
            proof {
                assert(a_wit.done() && a_wit.value() == Result::<AR, E>::Err(e0));
            }
            self.state = TryState::Done {
                result: Ghost(Result::Err(e0)),
                a_value: Ghost(Result::Err(e0)),
                b_value: Ghost(bv),
            };
            return Progress::Ready(Result::Err(e));
        }
        let ghost mut b_wit: B = arbitrary();
        let b_err: Option<E> = match &mut self.state {
            TryState::Polling { b, .. } => {
                match b {
                    FallibleBranch::Pending(t) => match t.poll() {
                        Progress::Pending => None,
                        Progress::Ready(res) => match res {
                            Result::Ok(v) => {
                                *b = FallibleBranch::Completed(v);
                                None
                            },
                            Result::Err(e) => {
                                proof {
                                    b_wit = *t;
                                }
                                Some(e)
                            },
                        },
                    },
                    _ => None,
                }
            },
            TryState::Done { .. } => vstd::pervasive::unreached(),
        };
        if let Some(e) = b_err {
            let ghost av = self.a_value();
            let ghost e0 = e;
            proof {
                assert(b_wit.done() && b_wit.value() == Result::<BR, E>::Err(e0));
            }
            self.state = TryState::Done {
                result: Ghost(Result::Err(e0)),
                a_value: Ghost(av),
                b_value: Ghost(Result::Err(e0)),
            };
            return Progress::Ready(Result::Err(e));
        }
        let both = match &self.state {
            TryState::Polling { a, b } => a.completed() && b.completed(),
            TryState::Done { .. } => vstd::pervasive::unreached(),
        };
        if both {
            let mut st = TryState::Done {
                result: Ghost(arbitrary()),
                a_value: Ghost(arbitrary()),
                b_value: Ghost(arbitrary()),
            };
            core::mem::swap(&mut self.state, &mut st);
            match st {
                TryState::Polling {
                    a: FallibleBranch::Completed(x),
                    b: FallibleBranch::Completed(y),
                } => {
                    let ghost xv = x;
                    let ghost yv = y;
                    let out = (x, y);
                    self.state = TryState::Done {
                        result: Ghost(Result::Ok(out)),
                        a_value: Ghost(Result::Ok(xv)),
                        b_value: Ghost(Result::Ok(yv)),
                    };
                    Progress::Ready(Result::Ok(out))
                },
                _ => vstd::pervasive::unreached(),
            }
        } else {
            Progress::Pending
        }
    }

    fn is_done(&self) -> (r: bool) {
        match &self.state {
            TryState::Done { .. } => true,
            _ => false,
        }
    }
}

/// Success of the fallible join: when both branches carry successes, a
/// completed node carries exactly the pair of the two payloads.
pub proof fn try_join_success<A, B, AR, BR, E>(j: TryJoin<A, B, AR, BR, E>, x: AR, y: BR) where
    A: Task<Output = Result<AR, E>>,
    B: Task<Output = Result<BR, E>>,

    requires
        j.inv(),
        j.done(),
        j.a_value() == Result::<AR, E>::Ok(x),
        j.b_value() == Result::<BR, E>::Ok(y),
    ensures
        j.value() == Result::<(AR, BR), E>::Ok((x, y)),
{
}

/// A success pair can be reported only when both branches carry successes:
/// a completed node whose value is a pair got each component from its
/// branch.
pub proof fn try_join_success_provenance<A, B, AR, BR, E>(
    j: TryJoin<A, B, AR, BR, E>,
    x: AR,
    y: BR,
) where
    A: Task<Output = Result<AR, E>>,
    B: Task<Output = Result<BR, E>>,

    requires
        j.inv(),
        j.done(),
        j.value() == Result::<(AR, BR), E>::Ok((x, y)),
    ensures
        j.a_value() == Result::<AR, E>::Ok(x),
        j.b_value() == Result::<BR, E>::Ok(y),
{
}

/// Short-circuit of the fallible join: when branch `a` carries failure `e`
/// and branch `b` does not fail — in particular when `b` never completes at
/// all — a completed node reports exactly `e`.
pub proof fn try_join_short_circuit<A, B, AR, BR, E>(j: TryJoin<A, B, AR, BR, E>, e: E) where
    A: Task<Output = Result<AR, E>>,
    B: Task<Output = Result<BR, E>>,

    requires
        j.inv(),
        j.done(),
        j.a_value() == Result::<AR, E>::Err(e),
        !(j.b_value() is Err),
    ensures
        j.value() == Result::<(AR, BR), E>::Err(e),
{
}

/// Short-circuit of the fallible join from the other side, which is also
/// the fixed-order tie-break: when branch `b` carries failure `e` and branch
/// `a` carries a success — even a success observed and frozen in the very
/// round in which `b`'s failure is noticed — a completed node reports
/// exactly `e`, never a pair.
pub proof fn try_join_short_circuit_b<A, B, AR, BR, E>(j: TryJoin<A, B, AR, BR, E>, e: E) where
    A: Task<Output = Result<AR, E>>,
    B: Task<Output = Result<BR, E>>,

    requires
        j.inv(),
        j.done(),
        j.b_value() == Result::<BR, E>::Err(e),
        !(j.a_value() is Err),
    ensures
        j.value() == Result::<(AR, BR), E>::Err(e),
{
}

/// Failures are relayed opaquely: an error reported by a completed node is
/// the error one of the branches carried, never anything synthesized.
pub proof fn try_join_error_provenance<A, B, AR, BR, E>(j: TryJoin<A, B, AR, BR, E>, e: E) where
    A: Task<Output = Result<AR, E>>,
    B: Task<Output = Result<BR, E>>,

    requires
        j.inv(),
        j.done(),
        j.value() == Result::<(AR, BR), E>::Err(e),
    ensures
        (j.a_value() == Result::<AR, E>::Err(e) && some_completed_task_yields::<A>(j.a_value()))
            || (j.b_value() == Result::<BR, E>::Err(e) && some_completed_task_yields::<B>(
            j.b_value(),
        )),
{
}

} // verus!
