//! Leaf tasks: pure value producers, fixed-delay timers, and a task that
//! never completes. Leaves are where suspension happens; combinators only
//! forward progress checks to them.

use vstd::prelude::*;
use crate::task::{Progress, Task};

verus! {

/// A leaf task holding a precomputed value, yielded on the first poll.
pub struct Leaf<T> {
    slot: Option<T>,
    val: Ghost<T>,
}

impl<T> Leaf<T> {
    /// Build a leaf that yields `v` on its first progress check.
    pub fn new(v: T) -> (r: Leaf<T>)
        ensures
            r.inv(),
            !r.done(),
            r.decided(),
            r.ready_now(),
            r.value() == v,
    {
        Leaf { slot: Some(v), val: Ghost(v) }
    }
}

impl<T> Task for Leaf<T> {
    type Output = T;

    type Frame = ();

    closed spec fn inv(&self) -> bool {
        self.slot matches Some(v) ==> v == self.val@
    }

    closed spec fn done(&self) -> bool {
        self.slot is None
    }

    closed spec fn value(&self) -> T {
        self.val@
    }

    closed spec fn decided(&self) -> bool {
        true
    }

    closed spec fn frame(&self) -> () {
        ()
    }

    closed spec fn ready_now(&self) -> bool {
        true
    }

    fn poll(&mut self) -> (p: Progress<T>)
        ensures
            p is Ready,
    {
        match self.slot.take() {
            Some(v) => Progress::Ready(v),
            None => vstd::pervasive::unreached(),
        }
    }

    fn is_done(&self) -> (r: bool) {
        self.slot.is_none()
    }
}

/// A leaf task that stays pending for a fixed number of rounds and then
/// yields its payload: the shape of a fixed-delay timer.
pub struct Delayed<T> {
    remaining: u64,
    slot: Option<T>,
    val: Ghost<T>,
}

impl<T> Delayed<T> {
    /// Build a leaf that reports `Pending` for `rounds` polls and yields `v`
    /// on the poll after those.
    pub fn new(v: T, rounds: u64) -> (r: Delayed<T>)
        ensures
            r.inv(),
            !r.done(),
            r.decided(),
            r.value() == v,
            r.rounds_left() == rounds,
            r.ready_now() == (rounds == 0),
    {
        Delayed { remaining: rounds, slot: Some(v), val: Ghost(v) }
    }

    /// How many polls will still report `Pending` before the value comes.
    pub closed spec fn rounds_left(&self) -> u64 {
        self.remaining
    }
}

impl<T> Task for Delayed<T> {
    type Output = T;

    type Frame = ();

    closed spec fn inv(&self) -> bool {
        self.slot matches Some(v) ==> v == self.val@
    }

    closed spec fn done(&self) -> bool {
        self.slot is None
    }

    closed spec fn value(&self) -> T {
        self.val@
    }

    closed spec fn decided(&self) -> bool {
        true
    }

    closed spec fn frame(&self) -> () {
        ()
    }

    closed spec fn ready_now(&self) -> bool {
        self.rounds_left() == 0
    }

    fn poll(&mut self) -> (p: Progress<T>)
        ensures
            old(self).rounds_left() > 0 ==> p is Pending && final(self).rounds_left()
                == old(self).rounds_left() - 1,
            old(self).rounds_left() == 0 ==> p is Ready,
    {
        if self.remaining > 0 {
            self.remaining = self.remaining - 1;
            Progress::Pending
        } else {
            match self.slot.take() {
                Some(v) => Progress::Ready(v),
                None => vstd::pervasive::unreached(),
            }
        }
    }

    fn is_done(&self) -> (r: bool) {
        self.slot.is_none()
    }
}

/// A leaf task that never completes: every poll reports `Pending`.
pub struct Never<T> {
    val: Ghost<T>,
}

impl<T> Never<T> {
    /// Build a task that never yields.
    pub fn new() -> (r: Never<T>)
        ensures
            r.inv(),
            !r.done(),
            r.decided(),
            !r.ready_now(),
    {
        Never { val: Ghost(arbitrary()) }
    }
}

impl<T> Task for Never<T> {
    type Output = T;

    type Frame = ();

    closed spec fn inv(&self) -> bool {
        true
    }

    closed spec fn done(&self) -> bool {
        false
    }

    closed spec fn value(&self) -> T {
        self.val@
    }

    closed spec fn decided(&self) -> bool {
        true
    }

    closed spec fn frame(&self) -> () {
        ()
    }

    closed spec fn ready_now(&self) -> bool {
        false
    }

    fn poll(&mut self) -> (p: Progress<T>) {
        Progress::Pending
    }

    fn is_done(&self) -> (r: bool) {
        false
    }
}

/// A never-completing task has no terminal state at all: no value can ever
/// be attributed to it.
pub proof fn never_has_no_terminal_state<T>(n: Never<T>)
    ensures
        !n.done(),
{
}

/// A task behind a fixed heap location is still the same task: polling
/// forwards through the indirection. Suspended state that holds internal
/// self-references keeps a stable address this way, even though values move
/// freely otherwise.
impl<T: Task> Task for Box<T> {
    type Output = T::Output;

    type Frame = T::Frame;

    open spec fn inv(&self) -> bool {
        (**self).inv()
    }

    open spec fn done(&self) -> bool {
        (**self).done()
    }

    open spec fn value(&self) -> T::Output {
        (**self).value()
    }

    open spec fn decided(&self) -> bool {
        (**self).decided()
    }

    open spec fn frame(&self) -> T::Frame {
        (**self).frame()
    }

    open spec fn ready_now(&self) -> bool {
        (**self).ready_now()
    }

    fn poll(&mut self) -> (p: Progress<T::Output>) {
        (**self).poll()
    }

    fn is_done(&self) -> (r: bool) {
        (**self).is_done()
    }
}

} // verus!
