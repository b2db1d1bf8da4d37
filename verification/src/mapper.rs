//! The mapping combinator: wrap one task and transform its result once, on
//! completion.

use vstd::prelude::*;
use crate::task::{Progress, Task};

verus! {

/// Wraps one task and applies a caller-supplied function to its result
/// exactly once, at the moment the task completes — never before, never
/// twice.
#[verifier::reject_recursive_types(U)]
pub struct Mapping<A: Task, U, M: FnOnce(A::Output) -> U> {
    state: MapState<A, U, M>,
}

#[verifier::reject_recursive_types(U)]
enum MapState<A: Task, U, M: FnOnce(A::Output) -> U> {
    Polling { future: A, mapper: M },
    Done { result: Ghost<U>, inner_value: Ghost<A::Output>, mapper0: Ghost<M> },
}

/// Build the task that yields `mapper` of `task`'s result.
pub fn map<A: Task, U, M: FnOnce(A::Output) -> U>(task: A, mapper: M) -> (r: Mapping<A, U, M>)
    requires
        task.inv(),
        !task.done(),
        forall|x: A::Output| #[trigger] call_requires(mapper, (x,)),
    ensures
        r.inv(),
        !r.done(),
        r.inner_value() == task.value(),
        r.inner_decided() == task.decided(),
        r.mapper_fn() == mapper,
        r.ready_now() == task.ready_now(),
{
    Mapping { state: MapState::Polling { future: task, mapper } }
}

impl<A: Task, U, M: FnOnce(A::Output) -> U> Mapping<A, U, M> {
    /// The wrapped task's result: frozen once the node is terminal.
    pub closed spec fn inner_value(&self) -> A::Output {
        match self.state {
            MapState::Polling { future, .. } => future.value(),
            MapState::Done { inner_value, .. } => inner_value@,
        }
    }

    /// The wrapped task's result is already determined.
    pub closed spec fn inner_decided(&self) -> bool {
        match self.state {
            MapState::Polling { future, .. } => future.decided(),
            MapState::Done { .. } => true,
        }
    }

    /// The function applied to the wrapped task's result.
    pub closed spec fn mapper_fn(&self) -> M {
        match self.state {
            MapState::Polling { mapper, .. } => mapper,
            MapState::Done { mapper0, .. } => mapper0@,
        }
    }
}

impl<A: Task, U, M: FnOnce(A::Output) -> U> Task for Mapping<A, U, M> {
    type Output = U;

    type Frame = M;

    closed spec fn inv(&self) -> bool {
        match self.state {
            MapState::Polling { future, mapper } => future.inv() && !future.done() && (forall|
                x: A::Output,
            | #[trigger] call_requires(mapper, (x,))),
            MapState::Done { result, inner_value, mapper0 } => call_ensures(
                mapper0@,
                (inner_value@,),
                result@,
            ),
        }
    }

    closed spec fn done(&self) -> bool {
        self.state is Done
    }

    closed spec fn value(&self) -> U {
        match self.state {
            MapState::Polling { .. } => arbitrary(),
            MapState::Done { result, .. } => result@,
        }
    }

    closed spec fn decided(&self) -> bool {
        self.state is Done
    }

    open spec fn frame(&self) -> M {
        self.mapper_fn()
    }

    closed spec fn ready_now(&self) -> bool {
        match self.state {
            MapState::Polling { future, .. } => future.ready_now(),
            MapState::Done { .. } => false,
        }
    }

    fn poll(&mut self) -> (p: Progress<U>)
        ensures
            old(self).inner_decided() ==> final(self).inner_decided() && final(self).inner_value()
                == old(self).inner_value(),
    {
        let moved = match &mut self.state {
            MapState::Polling { future, .. } => {
                match future.poll() {
                    Progress::Pending => {
                        return Progress::Pending;
                    },
                    Progress::Ready(x) => Some(x),
                }
            },
            MapState::Done { .. } => vstd::pervasive::unreached(),
        };
        if let Some(x) = moved {
            let mut st = MapState::Done {
                result: Ghost(arbitrary()),
                inner_value: Ghost(arbitrary()),
                mapper0: Ghost(arbitrary()),
            };
            core::mem::swap(&mut self.state, &mut st);
            match st {
                MapState::Polling { future, mapper } => {
                    let ghost mapper0 = mapper;
                    let v = mapper(x);
                    self.state = MapState::Done {
                        result: Ghost(v),
                        inner_value: Ghost(x),
                        mapper0: Ghost(mapper0),
                    };
                    Progress::Ready(v)
                },
                _ => vstd::pervasive::unreached(),
            }
        } else {
            vstd::pervasive::unreached()
        }
    }

    fn is_done(&self) -> (r: bool) {
        match &self.state {
            MapState::Done { .. } => true,
            _ => false,
        }
    }
}

/// What never changes about a mapping is its mapper: it is the node's
/// frame, which polling preserves.
pub proof fn mapping_frame_is_mapper<A: Task, U, M: FnOnce(A::Output) -> U>(m: Mapping<A, U, M>)
    ensures
        m.frame() == m.mapper_fn(),
{
}

/// A completed mapping whose function implements `mspec` yielded exactly
/// `mspec` of the wrapped task's result.
pub proof fn map_exact<A: Task, U, M: FnOnce(A::Output) -> U>(
    m: Mapping<A, U, M>,
    mspec: spec_fn(A::Output) -> U,
)
    requires
        m.inv(),
        m.done(),
        forall|x: A::Output, r: U| #[trigger] call_ensures(m.mapper_fn(), (x,), r) ==> r == mspec(
            x,
        ),
    ensures
        m.value() == mspec(m.inner_value()),
{
    match m.state {
        MapState::Done { result, inner_value, mapper0 } => {
            assert(call_ensures(mapper0@, (inner_value@,), result@));
            assert(m.mapper_fn() == mapper0@);
        },
        _ => {
            assert(false);
        },
    }
}

} // verus!
