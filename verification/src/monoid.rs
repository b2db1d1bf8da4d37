//! Monoidal reduction of tasks: a capability constraint for result types
//! that carry an identity element and an associative combine operation, a
//! pairwise combining node, and a fold that reduces a whole collection of
//! same-typed tasks into one aggregate seeded with the identity.

use vstd::prelude::*;
use crate::leaf::Leaf;
use crate::task::{Branch, Progress, Task};

verus! {

/// The capability a result type must supply for monoidal reduction: an
/// identity value and an associative binary combine, with the identity
/// acting as left and right unit. The laws are stated as proof obligations
/// on the implementing type, so supplying a combine that breaks them is
/// ruled out rather than merely discouraged.
pub trait Monoid: Sized {
    /// The neutral element.
    spec fn id_spec() -> Self;

    /// The combine operation, at the specification level.
    spec fn combine_spec(self, other: Self) -> Self;

    /// The identity is a left and right unit for combine.
    proof fn lemma_identity(x: Self)
        ensures
            Self::id_spec().combine_spec(x) == x,
            x.combine_spec(Self::id_spec()) == x,
    ;

    /// Combine is associative.
    proof fn lemma_associative(x: Self, y: Self, z: Self)
        ensures
            (x.combine_spec(y)).combine_spec(z) == x.combine_spec(y.combine_spec(z)),
    ;

    /// Produce the identity value.
    fn identity() -> (r: Self)
        ensures
            r == Self::id_spec(),
    ;

    /// Combine two values.
    fn combine(&self, other: &Self) -> (r: Self)
        ensures
            r == self.combine_spec(*other),
    ;
}

/// A task that yields the identity value of a monoid on its first poll.
pub fn fut_id<T: Monoid>() -> (r: Leaf<T>)
    ensures
        r.inv(),
        !r.done(),
        r.decided(),
        r.ready_now(),
        r.value() == T::id_spec(),
{
    Leaf::new(T::identity())
}

/// Combines two tasks over one monoidal result type: both branches advance
/// every round, `future1` before `future2`, and on joint completion the two
/// results are fused with the monoid's combine.
pub struct MonoidCombine<F1: Task, F2: Task<Output = F1::Output>> where F1::Output: Monoid {
    state: MonoidCombineState<F1, F2>,
}

enum MonoidCombineState<F1: Task, F2: Task<Output = F1::Output>> where F1::Output: Monoid {
    Awaiting { future1: Branch<F1>, future2: Branch<F2> },
    Completed { result: Ghost<F1::Output> },
}

impl<F1: Task, F2: Task<Output = F1::Output>> MonoidCombine<F1, F2> where F1::Output: Monoid {
    /// Build the pairwise monoidal combination of `future1` and `future2`.
    pub fn new(future1: F1, future2: F2) -> (r: MonoidCombine<F1, F2>)
        requires
            future1.inv(),
            !future1.done(),
            future2.inv(),
            !future2.done(),
        ensures
            r.inv(),
            !r.done(),
            r.value() == future1.value().combine_spec(future2.value()),
            r.decided() == (future1.decided() && future2.decided()),
            r.ready_now() == (future1.ready_now() && future2.ready_now()),
    {
        MonoidCombine {
            state: MonoidCombineState::Awaiting {
                future1: Branch::Pending(future1),
                future2: Branch::Pending(future2),
            },
        }
    }
}

impl<F1: Task, F2: Task<Output = F1::Output>> Task for MonoidCombine<F1, F2> where
    F1::Output: Monoid,
 {
    type Output = F1::Output;

    type Frame = ();

    closed spec fn inv(&self) -> bool {
        match self.state {
            MonoidCombineState::Awaiting { future1, future2 } => future1.inv() && future2.inv()
                && !(future1.is_completed() && future2.is_completed()),
            MonoidCombineState::Completed { .. } => true,
        }
    }

    closed spec fn done(&self) -> bool {
        self.state is Completed
    }

    closed spec fn value(&self) -> F1::Output {
        match self.state {
            MonoidCombineState::Awaiting { future1, future2 } => future1.value().combine_spec(
                future2.value(),
            ),
            MonoidCombineState::Completed { result } => result@,
        }
    }

    closed spec fn decided(&self) -> bool {
        match self.state {
            MonoidCombineState::Awaiting { future1, future2 } => future1.decided()
                && future2.decided(),
            MonoidCombineState::Completed { .. } => true,
        }
    }

    closed spec fn frame(&self) -> () {
        ()
    }

    closed spec fn ready_now(&self) -> bool {
        match self.state {
            MonoidCombineState::Awaiting { future1, future2 } => future1.completes_now()
                && future2.completes_now(),
            MonoidCombineState::Completed { .. } => false,
        }
    }

    fn poll(&mut self) -> (p: Progress<F1::Output>) {
        let both = match &mut self.state {
            MonoidCombineState::Awaiting { future1, future2 } => {
                future1.advance();
                future2.advance();
                future1.completed() && future2.completed()
            },
            MonoidCombineState::Completed { .. } => vstd::pervasive::unreached(),
        };
        if both {
            let mut st = MonoidCombineState::Completed { result: Ghost(arbitrary()) };
            core::mem::swap(&mut self.state, &mut st);
            match st {
                MonoidCombineState::Awaiting {
                    future1: Branch::Completed(x),
                    future2: Branch::Completed(y),
                } => {
                    let v = x.combine(&y);
                    let ghost v0 = v;
                    self.state = MonoidCombineState::Completed { result: Ghost(v0) };
                    Progress::Ready(v)
                },
                _ => vstd::pervasive::unreached(),
            }
        } else {
            Progress::Pending
        }
    }

    fn is_done(&self) -> (r: bool) {
        match &self.state {
            MonoidCombineState::Completed { .. } => true,
            _ => false,
        }
    }
}

/// Combine two tasks over one monoidal result type behind a fixed heap
/// location.
pub fn combine<F1: Task, F2: Task<Output = F1::Output>>(future1: F1, future2: F2) -> (r: Box<
    MonoidCombine<F1, F2>,
>) where F1::Output: Monoid
    requires
        future1.inv(),
        !future1.done(),
        future2.inv(),
        !future2.done(),
    ensures
        r.inv(),
        !r.done(),
        r.value() == future1.value().combine_spec(future2.value()),
        r.decided() == (future1.decided() && future2.decided()),
        r.ready_now() == (future1.ready_now() && future2.ready_now()),
{
    Box::new(MonoidCombine::new(future1, future2))
}

/// The monoidal fold of a sequence of values: combined left to right,
/// seeded with the identity.
pub open spec fn fold_values<M: Monoid>(vals: Seq<M>) -> M {
    vals.fold_left(M::id_spec(), |acc: M, x: M| acc.combine_spec(x))
}

/// The values a sequence of branch slots contributes.
pub open spec fn slot_values<T: Task>(s: Seq<Branch<T>>) -> Seq<T::Output> {
    s.map_values(|br: Branch<T>| br.value())
}

/// Folds a whole collection of same-typed tasks into one aggregate value:
/// every round advances each not-yet-finished task in order, and once all
/// have completed their results are combined left to right, seeded with the
/// identity. An empty collection yields the identity on the first poll.
pub struct MonoidFold<T: Task> where T::Output: Monoid {
    state: FoldState<T>,
}

enum FoldState<T: Task> where T::Output: Monoid {
    Folding { slots: Vec<Branch<T>> },
    Done { result: Ghost<T::Output> },
}

/// Build the monoidal fold of `tasks`.
pub fn monoid_fold<T: Task>(tasks: Vec<T>) -> (r: MonoidFold<T>) where T::Output: Monoid
    requires
        forall|i: int| 0 <= i < tasks@.len() ==> (#[trigger] tasks@[i]).inv() && !tasks@[i].done(),
    ensures
        r.inv(),
        !r.done(),
        r.value() == fold_values(tasks@.map_values(|t: T| t.value())),
        r.decided() == (forall|i: int| 0 <= i < tasks@.len() ==> (#[trigger] tasks@[i]).decided()),
        r.task_count() == tasks@.len(),
        r.all_completed() == (tasks@.len() == 0),
        r.ready_now() == (forall|i: int|
            0 <= i < tasks@.len() ==> (#[trigger] tasks@[i]).ready_now()),
{
    let ghost orig = tasks@;
    let mut rest = tasks;
    let mut slots: Vec<Branch<T>> = Vec::new();
    while rest.len() > 0
        invariant
            orig.len() == slots@.len() + rest@.len(),
            rest@ == orig.subrange(slots@.len() as int, orig.len() as int),
            forall|i: int| 0 <= i < slots@.len() ==> slots@[i] == Branch::Pending(orig[i]),
            forall|i: int| 0 <= i < orig.len() ==> (#[trigger] orig[i]).inv() && !orig[i].done(),
        decreases rest@.len(),
    {
        let t = rest.remove(0);
        slots.push(Branch::Pending(t));
    }
    let r = MonoidFold { state: FoldState::Folding { slots } };
    proof {
        let s = r.spec_slots();
        assert(slot_values(s) =~= orig.map_values(|t: T| t.value()));
        if forall|i: int| 0 <= i < orig.len() ==> (#[trigger] orig[i]).decided() {
            assert forall|i: int| 0 <= i < s.len() implies (#[trigger] s[i]).decided() by {
                assert(orig[i].decided());
            }
        } else {
            let w = choose|i: int| 0 <= i < orig.len() && !(#[trigger] orig[i]).decided();
            assert(!s[w].decided());
        }
        if orig.len() > 0 {
            assert(!s[0].is_completed());
        }
        if forall|i: int| 0 <= i < orig.len() ==> (#[trigger] orig[i]).ready_now() {
            assert forall|i: int| 0 <= i < s.len() implies (#[trigger] s[i]).completes_now() by {
                assert(orig[i].ready_now());
            }
        } else {
            let w = choose|i: int| 0 <= i < orig.len() && !(#[trigger] orig[i]).ready_now();
            assert(!s[w].completes_now());
        }
    }
    r
}

impl<T: Task> MonoidFold<T> where T::Output: Monoid {
    /// How many task slots the fold still works on; none once terminal.
    pub closed spec fn task_count(&self) -> nat {
        match self.state {
            FoldState::Folding { slots } => slots@.len(),
            FoldState::Done { .. } => 0,
        }
    }

    /// Every slot already holds a frozen result — vacuously true of a fold
    /// over no tasks at all.
    pub closed spec fn all_completed(&self) -> bool {
        match self.state {
            FoldState::Folding { slots } => forall|i: int|
                0 <= i < slots@.len() ==> (#[trigger] slots@[i]).is_completed(),
            FoldState::Done { .. } => true,
        }
    }

    spec fn spec_slots(&self) -> Seq<Branch<T>>
        recommends
            self.state is Folding,
    {
        match self.state {
            FoldState::Folding { slots } => slots@,
            FoldState::Done { .. } => arbitrary(),
        }
    }
}

impl<T: Task> Task for MonoidFold<T> where T::Output: Monoid {
    type Output = T::Output;

    type Frame = ();

    closed spec fn inv(&self) -> bool {
        match self.state {
            FoldState::Folding { slots } => forall|i: int|
                0 <= i < slots@.len() ==> (#[trigger] slots@[i]).inv(),
            FoldState::Done { .. } => true,
        }
    }

    closed spec fn done(&self) -> bool {
        self.state is Done
    }

    closed spec fn value(&self) -> T::Output {
        match self.state {
            FoldState::Folding { slots } => fold_values(slot_values(slots@)),
            FoldState::Done { result } => result@,
        }
    }

    closed spec fn decided(&self) -> bool {
        match self.state {
            FoldState::Folding { slots } => forall|i: int|
                0 <= i < slots@.len() ==> (#[trigger] slots@[i]).decided(),
            FoldState::Done { .. } => true,
        }
    }

    closed spec fn frame(&self) -> () {
        ()
    }

    closed spec fn ready_now(&self) -> bool {
        match self.state {
            FoldState::Folding { slots } => forall|i: int|
                0 <= i < slots@.len() ==> (#[trigger] slots@[i]).completes_now(),
            FoldState::Done { .. } => false,
        }
    }

    fn poll(&mut self) -> (p: Progress<T::Output>)
        ensures
            old(self).all_completed() ==> p is Ready,
    {
        match &mut self.state {
            FoldState::Folding { slots } => {
                let ghost pre = slots@;
                let n = slots.len();
                let mut i: usize = 0;
                let mut all = true;
                while i < n
                    invariant
                        n == slots@.len(),
                        0 <= i <= n,
                        forall|j: int| 0 <= j < n ==> (#[trigger] slots@[j]).inv(),
                        forall|j: int|
                            0 <= j < n ==> (pre[j].decided() ==> (#[trigger] slots@[j]).decided()
                                && slots@[j].value() == pre[j].value()),
                        forall|j: int| i <= j < n ==> slots@[j] == pre[j],
                        all ==> (forall|j: int|
                            0 <= j < i ==> (#[trigger] slots@[j]).is_completed()),
                        (forall|j: int| 0 <= j < n ==> (#[trigger] pre[j]).completes_now())
                            ==> all,
                    decreases n - i,
                {
                    let ghost before = slots@;
                    let br = &mut slots[i];
                    br.advance();
                    let fine = br.completed();
                    if !fine {
                        all = false;
                    }
                    proof {
                        assert(forall|j: int| 0 <= j < n && j != i ==> slots@[j] == before[j]);
                    }
                    i += 1;
                }
                proof {
                    if forall|j: int| 0 <= j < n ==> (#[trigger] pre[j]).decided() {
                        assert forall|j: int| 0 <= j < n implies (#[trigger] slots@[j]).decided()
                            && slots@[j].value() == pre[j].value() by {
                            assert(pre[j].decided());
                        }
                        assert(slot_values(slots@) =~= slot_values(pre));
                    }
                    if forall|j: int| 0 <= j < n ==> (#[trigger] pre[j]).is_completed() {
                        assert forall|j: int| 0 <= j < n implies (
                        #[trigger] pre[j]).completes_now() by {
                            assert(pre[j].is_completed());
                        }
                    }
                }
                if all {
                    let ghost vals = slot_values(slots@);
                    let ghost mid = slots@;
                    let mut acc = <T::Output as Monoid>::identity();
                    let mut k: usize = 0;
                    while k < n
                        invariant
                            n == slots@.len(),
                            n == mid.len(),
                            0 <= k <= n,
                            forall|j: int| k <= j < n ==> slots@[j] == mid[j],
                            forall|j: int| 0 <= j < n ==> (#[trigger] mid[j]).is_completed(),
                            vals == slot_values(mid),
                            acc == fold_values(vals.take(k as int)),
                        decreases n - k,
                    {
                        let mut taken = Branch::Consumed;
                        slots.set_and_swap(k, &mut taken);
                        match taken {
                            Branch::Completed(x) => {
                                proof {
                                    reveal_with_fuel(Seq::fold_left, 2);
                                    assert(vals.len() == n);
                                    let next = vals.take(k as int + 1);
                                    assert(next.len() == k as int + 1);
                                    assert(next.drop_last() =~= vals.take(k as int));
                                    assert(next.last() == vals[k as int]);
                                    assert(vals[k as int] == mid[k as int].value());
                                }
                                acc = acc.combine(&x);
                            },
                            _ => {
                                proof {
                                    assert(mid[k as int].is_completed());
                                }
                                vstd::pervasive::unreached()
                            },
                        }
                        k += 1;
                    }
                    proof {
                        assert(vals.take(n as int) =~= vals);
                    }
                    let ghost acc0 = acc;
                    self.state = FoldState::Done { result: Ghost(acc0) };
                    Progress::Ready(acc)
                } else {
                    Progress::Pending
                }
            },
            FoldState::Done { .. } => vstd::pervasive::unreached(),
        }
    }

    fn is_done(&self) -> (r: bool) {
        match &self.state {
            FoldState::Done { .. } => true,
            _ => false,
        }
    }
}

/// An empty collection folds to the identity value.
pub proof fn fold_values_empty<M: Monoid>()
    ensures
        fold_values(Seq::<M>::empty()) == M::id_spec(),
{
}

/// A singleton collection folds to its sole value, unchanged.
pub proof fn fold_values_singleton<M: Monoid>(x: M)
    ensures
        fold_values(seq![x]) == x,
{
    reveal_with_fuel(Seq::fold_left, 2);
    let s = seq![x];
    assert(s.drop_last() =~= Seq::<M>::empty());
    assert(s.last() == x);
    M::lemma_identity(x);
}

/// Grouping independence: folding a concatenation equals combining the two
/// parts' folds. With an associative combine and a true identity, the
/// aggregate does not depend on how the collection was grouped.
pub proof fn fold_values_append<M: Monoid>(s1: Seq<M>, s2: Seq<M>)
    ensures
        fold_values(s1 + s2) == fold_values(s1).combine_spec(fold_values(s2)),
    decreases s2.len(),
{
    reveal_with_fuel(Seq::fold_left, 2);
    if s2.len() == 0 {
        assert(s1 + s2 =~= s1);
        M::lemma_identity(fold_values(s1));
    } else {
        let s2x = s2.drop_last();
        fold_values_append(s1, s2x);
        assert((s1 + s2).drop_last() =~= s1 + s2x);
        assert((s1 + s2).last() == s2.last());
        M::lemma_associative(fold_values(s1), fold_values(s2x), s2.last());
    }
}

/// Addition saturating at the top of the range, with zero as identity: a
/// concrete monoid over one counter.
#[derive(Clone, Copy, PartialEq, Eq, Structural, Debug)]
pub struct SatSum {
    pub total: u64,
}

impl Monoid for SatSum {
    open spec fn id_spec() -> Self {
        SatSum { total: 0 }
    }

    open spec fn combine_spec(self, other: Self) -> Self {
        SatSum {
            total: if self.total + other.total <= u64::MAX {
                (self.total + other.total) as u64
            } else {
                u64::MAX
            },
        }
    }

    proof fn lemma_identity(x: Self) {
    }

    proof fn lemma_associative(x: Self, y: Self, z: Self) {
    }

    fn identity() -> (r: Self) {
        SatSum { total: 0 }
    }

    fn combine(&self, other: &Self) -> (r: Self) {
        SatSum { total: self.total.saturating_add(other.total) }
    }
}

} // verus!
