//! Dependent composition. The sequential form runs the first task to
//! completion, only then invokes a caller-supplied continuation exactly once
//! to build a second task from the first result, runs that task and yields
//! its value. The sequence form takes the second task up front and never
//! advances it while the first is still pending.

use vstd::prelude::*;
use crate::task::{Branch, Progress, Task};

verus! {

/// Dependent composition of a task and a continuation that builds the second
/// task from the first task's result. The continuation runs exactly once, at
/// the moment the first task completes; no speculative construction of the
/// second task happens before that. The first result is consumed by the
/// continuation and discarded; the node's output is the second task's value.
#[verifier::reject_recursive_types(B)]
pub struct Sequential<A: Task, B: Task, F: FnOnce(A::Output) -> B> {
    state: SeqState<A, B, F>,
    first_pin: Ghost<Option<A::Output>>,
}

#[verifier::reject_recursive_types(B)]
enum SeqState<A: Task, B: Task, F: FnOnce(A::Output) -> B> {
    First { first: A, cont: F },
    Second {
        second: B,
        first_value: Ghost<A::Output>,
        first0: Ghost<A>,
        built0: Ghost<B>,
        cont0: Ghost<F>,
    },
    Done {
        result: Ghost<B::Output>,
        first_value: Ghost<A::Output>,
        first0: Ghost<A>,
        built0: Ghost<B>,
        built_fin: Ghost<B>,
        cont0: Ghost<F>,
    },
}

/// Build the dependent composition of `first` and `second_fn`. The
/// continuation must build a fresh, healthy task from whatever value it is
/// handed.
pub fn sequential<A: Task, B: Task, F: FnOnce(A::Output) -> B>(first: A, second_fn: F) -> (r:
    Sequential<A, B, F>)
    requires
        first.inv(),
        !first.done(),
        forall|x: A::Output| #[trigger] call_requires(second_fn, (x,)),
        forall|x: A::Output, b: B| #[trigger] call_ensures(second_fn, (x,), b) ==> b.inv()
            && !b.done(),
    ensures
        r.inv(),
        !r.done(),
        r.in_first(),
        r.first_task() == first,
        r.first_value() == first.value(),
        r.cont() == second_fn,
        r.first_pin() == (if first.decided() {
            Some(first.value())
        } else {
            None
        }),
        !r.ready_now(),
{
    let ghost pin = if first.decided() {
        Some(first.value())
    } else {
        None
    };
    Sequential { state: SeqState::First { first, cont: second_fn }, first_pin: Ghost(pin) }
}

impl<A: Task, B: Task, F: FnOnce(A::Output) -> B> Sequential<A, B, F> {
    /// The node still works on its first task.
    pub closed spec fn in_first(&self) -> bool {
        self.state is First
    }

    /// The first task: live while the node is in its first phase, afterwards
    /// the task's state as of the moment it completed.
    pub closed spec fn first_task(&self) -> A {
        match self.state {
            SeqState::First { first, .. } => first,
            SeqState::Second { first0, .. } => first0@,
            SeqState::Done { first0, .. } => first0@,
        }
    }

    /// The first task's result: frozen once the first task has completed.
    pub closed spec fn first_value(&self) -> A::Output {
        match self.state {
            SeqState::First { first, .. } => first.value(),
            SeqState::Second { first_value, .. } => first_value@,
            SeqState::Done { first_value, .. } => first_value@,
        }
    }

    /// The continuation this node was built with.
    pub closed spec fn cont(&self) -> F {
        match self.state {
            SeqState::First { cont, .. } => cont,
            SeqState::Second { cont0, .. } => cont0@,
            SeqState::Done { cont0, .. } => cont0@,
        }
    }

    /// The second task exactly as the continuation built it.
    pub closed spec fn built(&self) -> B {
        match self.state {
            SeqState::First { .. } => arbitrary(),
            SeqState::Second { built0, .. } => built0@,
            SeqState::Done { built0, .. } => built0@,
        }
    }

    /// The first task's result, pinned down at construction: `Some` of that
    /// result if the first task was already settled on its value when the
    /// node was built, `None` otherwise. Polling never changes it.
    pub closed spec fn first_pin(&self) -> Option<A::Output> {
        self.first_pin@
    }

    /// The second task as it stands now, or, once the node is terminal, as
    /// of the moment it yielded.
    pub closed spec fn built_final(&self) -> B {
        match self.state {
            SeqState::First { .. } => arbitrary(),
            SeqState::Second { second, .. } => second,
            SeqState::Done { built_fin, .. } => built_fin@,
        }
    }
}

impl<A: Task, B: Task, F: FnOnce(A::Output) -> B> Task for Sequential<A, B, F> {
    type Output = B::Output;

    type Frame = (F, Option<A::Output>);

    closed spec fn inv(&self) -> bool {
        match self.state {
            SeqState::First { first, cont } => first.inv() && !first.done() && (forall|
                x: A::Output,
            | #[trigger] call_requires(cont, (x,))) && (forall|x: A::Output, b: B| #[trigger]
            call_ensures(cont, (x,), b) ==> b.inv() && !b.done()) && (self.first_pin@ matches Some(
                v,
            ) ==> first.decided() && first.value() == v),
            SeqState::Second { second, first_value, first0, built0, cont0 } => second.inv()
                && !second.done() && first0@.inv() && first0@.done() && first0@.decided()
                && first0@.value() == first_value@ && call_ensures(cont0@, (first_value@,), built0@)
                && (built0@.decided() ==> second.decided() && second.value() == built0@.value())
                && second.frame() == built0@.frame() && (self.first_pin@ matches Some(v)
                ==> first_value@ == v),
            SeqState::Done { result, first_value, first0, built0, built_fin, cont0 } => first0@.inv()
                && first0@.done() && first0@.decided() && first0@.value() == first_value@
                && call_ensures(cont0@, (first_value@,), built0@) && built_fin@.inv()
                && built_fin@.done() && built_fin@.decided() && result@ == built_fin@.value() && (
            built0@.decided() ==> result@ == built0@.value()) && built_fin@.frame()
                == built0@.frame() && (self.first_pin@ matches Some(v) ==> first_value@ == v),
        }
    }

    closed spec fn done(&self) -> bool {
        self.state is Done
    }

    closed spec fn value(&self) -> B::Output {
        match self.state {
            SeqState::First { .. } => arbitrary(),
            SeqState::Second { second, .. } => second.value(),
            SeqState::Done { result, .. } => result@,
        }
    }

    closed spec fn decided(&self) -> bool {
        match self.state {
            SeqState::First { .. } => false,
            SeqState::Second { second, .. } => second.decided(),
            SeqState::Done { .. } => true,
        }
    }

    open spec fn frame(&self) -> (F, Option<A::Output>) {
        (self.cont(), self.first_pin())
    }

    closed spec fn ready_now(&self) -> bool {
        match self.state {
            SeqState::First { .. } => false,
            SeqState::Second { second, .. } => second.ready_now(),
            SeqState::Done { .. } => false,
        }
    }

    fn poll(&mut self) -> (p: Progress<B::Output>)
        ensures
            final(self).first_task().frame() == old(self).first_task().frame(),
    {
        let moved = match &mut self.state {
            SeqState::First { first, .. } => {
                match first.poll() {
                    Progress::Pending => {
                        return Progress::Pending;
                    },
                    Progress::Ready(x) => Some(x),
                }
            },
            _ => None,
        };
        if let Some(x) = moved {
            let mut st = SeqState::Done {
                result: Ghost(arbitrary()),
                first_value: Ghost(arbitrary()),
                first0: Ghost(arbitrary()),
                built0: Ghost(arbitrary()),
                built_fin: Ghost(arbitrary()),
                cont0: Ghost(arbitrary()),
            };
            core::mem::swap(&mut self.state, &mut st);
            match st {
                SeqState::First { first, cont } => {
                    let ghost first0 = first;
                    let ghost cont0 = cont;
                    let second = cont(x);
                    let ghost built0 = second;
                    self.state = SeqState::Second {
                        second,
                        first_value: Ghost(x),
                        first0: Ghost(first0),
                        built0: Ghost(built0),
                        cont0: Ghost(cont0),
                    };
                },
                _ => vstd::pervasive::unreached(),
            }
        }
        match &mut self.state {
            SeqState::Second { second, first_value, first0, built0, cont0 } => {
                match second.poll() {
                    Progress::Pending => Progress::Pending,
                    Progress::Ready(v) => {
                        let ghost built_fin = *second;
                        let fv = *first_value;
                        let f0 = *first0;
                        let b0 = *built0;
                        let c0 = *cont0;
                        self.state = SeqState::Done {
                            result: Ghost(v),
                            first_value: fv,
                            first0: f0,
                            built0: b0,
                            built_fin: Ghost(built_fin),
                            cont0: c0,
                        };
                        Progress::Ready(v)
                    },
                }
            },
            _ => vstd::pervasive::unreached(),
        }
    }

    fn is_done(&self) -> (r: bool) {
        match &self.state {
            SeqState::Done { .. } => true,
            _ => false,
        }
    }
}

/// What never changes about a chain is its continuation together with its
/// pinned first result: that pair is the chain's frame, which polling
/// preserves.
pub proof fn sequential_frame_parts<A: Task, B: Task, F: FnOnce(A::Output) -> B>(
    c: Sequential<A, B, F>,
)
    ensures
        c.frame() == (c.cont(), c.first_pin()),
{
}

/// A pinned first result is the first result: a well-formed chain built
/// over an already-settled first task keeps that task's value as its first
/// value through every phase.
pub proof fn sequential_first_pin_law<A: Task, B: Task, F: FnOnce(A::Output) -> B>(
    c: Sequential<A, B, F>,
    v: A::Output,
)
    requires
        c.inv(),
        c.first_pin() == Some(v),
    ensures
        c.first_value() == v,
        c.first_value() == c.first_task().value(),
{
}

/// The value law of dependent composition: a completed chain yielded exactly
/// what the task its continuation built came to yield, and the continuation
/// was applied to the first task's own result.
pub proof fn sequential_value_law<A: Task, B: Task, F: FnOnce(A::Output) -> B>(
    c: Sequential<A, B, F>,
)
    requires
        c.inv(),
        c.done(),
    ensures
        call_ensures(c.cont(), (c.first_value(),), c.built()),
        c.first_value() == c.first_task().value(),
        c.value() == c.built_final().value(),
        c.built().decided() ==> c.value() == c.built().value(),
{
}

/// A completed chain whose continuation builds, from any value `x`, a task
/// settled on `vspec(x)` yielded exactly `vspec` of its first result.
pub proof fn sequential_exact<A: Task, B: Task, F: FnOnce(A::Output) -> B>(
    c: Sequential<A, B, F>,
    vspec: spec_fn(A::Output) -> B::Output,
)
    requires
        c.inv(),
        c.done(),
        forall|x: A::Output, b: B| #[trigger] call_ensures(c.cont(), (x,), b) ==> b.decided()
            && b.value() == vspec(x),
    ensures
        c.value() == vspec(c.first_value()),
{
    match c.state {
        SeqState::Done { result, first_value, first0, built0, built_fin, cont0 } => {
            assert(call_ensures(cont0@, (first_value@,), built0@));
            assert(c.cont() == cont0@);
            assert(built0@.decided() && built0@.value() == vspec(first_value@));
        },
        _ => {
            assert(false);
        },
    }
}

/// Identity law: chaining a task with a continuation that hands the result
/// on unchanged — from any value `x` it builds a task settled on `x` itself
/// — is observably the first task alone: the completed chain's value is the
/// first task's own result, for any result value.
pub proof fn sequential_identity_law<A: Task, B: Task<Output = A::Output>, F: FnOnce(
    A::Output,
) -> B>(c: Sequential<A, B, F>)
    requires
        c.inv(),
        c.done(),
        forall|x: A::Output, b: B| #[trigger] call_ensures(c.cont(), (x,), b) ==> b.decided()
            && b.value() == x,
    ensures
        c.value() == c.first_value(),
        c.value() == c.first_task().value(),
{
    let vspec = |x: A::Output| x;
    sequential_exact(c, vspec);
    sequential_value_law(c);
}

/// Associativity law: chaining `A` with `f` and then the whole with `g` is
/// observably the same as chaining `A` with the continuation that chains
/// `f`'s task with `g`. Whenever both nestings have run to completion from
/// the same first result, both carry `gspec` of `fspec` of it: grouping
/// does not affect the final value.
pub proof fn sequential_associativity_law<
    A: Task,
    B: Task,
    C: Task,
    F1: FnOnce(A::Output) -> B,
    F2: FnOnce(B::Output) -> C,
    FI: FnOnce(B::Output) -> C,
    F3: FnOnce(A::Output) -> Sequential<B, C, FI>,
>(
    left: Sequential<Sequential<A, B, F1>, C, F2>,
    right: Sequential<A, Sequential<B, C, FI>, F3>,
    fspec: spec_fn(A::Output) -> B::Output,
    gspec: spec_fn(B::Output) -> C::Output,
)
    requires
        left.inv(),
        left.done(),
        right.inv(),
        right.done(),
// both runs start from the same first result
        left.first_task().first_value() == right.first_value(),
// the inner continuation of the left nesting implements fspec
        forall|x: A::Output, b: B| #[trigger] call_ensures(left.first_task().cont(), (x,), b)
            ==> b.decided() && b.value() == fspec(x),
// the outer continuation of the left nesting implements gspec
        forall|y: B::Output, c: C| #[trigger] call_ensures(left.cont(), (y,), c) ==> c.decided()
            && c.value() == gspec(y),
// the right continuation builds, from any value x, a chain pinned to
// fspec(x) whose own continuation implements gspec
        forall|x: A::Output, s: Sequential<B, C, FI>| #[trigger] call_ensures(
            right.cont(),
            (x,),
            s,
        ) ==> s.first_pin() == Some(fspec(x)) && (forall|y: B::Output, c: C| #[trigger]
        call_ensures(s.cont(), (y,), c) ==> c.decided() && c.value() == gspec(y)),
    ensures
        left.value() == right.value(),
        left.value() == gspec(fspec(right.first_value())),
{
    // left: the inner chain yielded fspec of the first result ...
    sequential_exact(left.first_task(), fspec);
    // ... and the outer chain applied gspec to that.
    sequential_exact(left, gspec);
    // right: the continuation was applied to the first result and built the
    // chain the node then ran to completion.
    sequential_value_law(right);
    let built0 = right.built();
    let fin = right.built_final();
    assert(call_ensures(right.cont(), (right.first_value(),), built0));
    // what never changes about a chain — its continuation and its pinned
    // first result — carries over from the chain as built to the chain as
    // it completed.
    assert(fin.cont() == built0.cont());
    assert(fin.first_pin() == built0.first_pin());
    assert(fin.first_value() == fspec(right.first_value()));
    sequential_exact(fin, gspec);
    assert(right.value() == gspec(fspec(right.first_value())));
}

/// Composition of a task with a concrete second task supplied up front. The
/// second task is never advanced while the first is still pending; once the
/// first reports its final value the node begins advancing the second. The
/// first result is discarded; the second task's result is the output.
pub struct Sequence<F: Task, G: Task> {
    state: SequenceState<F, G>,
}

enum SequenceState<F: Task, G: Task> {
    Polling { first: Branch<F>, second: G },
    Done { result: Ghost<G::Output> },
}

/// Build the composition that runs `first` to completion, then `second`,
/// and yields `second`'s result.
pub fn sequence<F: Task, G: Task>(first: F, second: G) -> (r: Sequence<F, G>)
    requires
        first.inv(),
        !first.done(),
        second.inv(),
        !second.done(),
    ensures
        r.inv(),
        !r.done(),
        r.value() == second.value(),
        r.decided() == second.decided(),
        r.ready_now() == (first.ready_now() && second.ready_now()),
{
    Sequence { state: SequenceState::Polling { first: Branch::Pending(first), second } }
}

impl<F: Task, G: Task> Task for Sequence<F, G> {
    type Output = G::Output;

    type Frame = ();

    closed spec fn inv(&self) -> bool {
        match self.state {
            SequenceState::Polling { first, second } => first.inv() && second.inv()
                && !second.done(),
            SequenceState::Done { .. } => true,
        }
    }

    closed spec fn done(&self) -> bool {
        self.state is Done
    }

    closed spec fn value(&self) -> G::Output {
        match self.state {
            SequenceState::Polling { second, .. } => second.value(),
            SequenceState::Done { result } => result@,
        }
    }

    closed spec fn decided(&self) -> bool {
        match self.state {
            SequenceState::Polling { second, .. } => second.decided(),
            SequenceState::Done { .. } => true,
        }
    }

    closed spec fn frame(&self) -> () {
        ()
    }

    closed spec fn ready_now(&self) -> bool {
        match self.state {
            SequenceState::Polling { first, second } => first.completes_now()
                && second.ready_now(),
            SequenceState::Done { .. } => false,
        }
    }

    fn poll(&mut self) -> (p: Progress<G::Output>) {
        match &mut self.state {
            SequenceState::Polling { first, second } => {
                first.advance();
                if first.completed() {
                    match second.poll() {
                        Progress::Pending => Progress::Pending,
                        Progress::Ready(y) => {
                            self.state = SequenceState::Done { result: Ghost(y) };
                            Progress::Ready(y)
                        },
                    }
                } else {
                    Progress::Pending
                }
            },
            SequenceState::Done { .. } => vstd::pervasive::unreached(),
        }
    }

    fn is_done(&self) -> (r: bool) {
        match &self.state {
            SequenceState::Done { .. } => true,
            _ => false,
        }
    }
}

/// Dependent composition whose continuation hands the built task back behind
/// a fixed heap location, so that the suspended second task's storage
/// address never changes while it is pending.
pub fn sequence_a<A: Task, B: Task, F: FnOnce(A::Output) -> Box<B>>(first: A, second: F) -> (r:
    Sequential<A, Box<B>, F>)
    requires
        first.inv(),
        !first.done(),
        forall|x: A::Output| #[trigger] call_requires(second, (x,)),
        forall|x: A::Output, b: Box<B>| #[trigger] call_ensures(second, (x,), b) ==> b.inv()
            && !b.done(),
    ensures
        r.inv(),
        !r.done(),
        r.in_first(),
        r.first_task() == first,
        r.cont() == second,
{
    sequential(first, second)
}

} // verus!
