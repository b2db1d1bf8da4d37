use comb::{
    combine, combine_with, fut_id, identity, join_futures, join_futures_bimap, monoid_fold,
    sequence, sequence_a, sequential, try_join, Delayed, Leaf, MonoidCombine, Never, Progress,
    SatSum, Task, TryJoin,
};

/// Poll a task until it yields its final value.
fn drive<T: Task>(t: &mut T) -> T::Output {
    loop {
        if let Progress::Ready(v) = t.poll() {
            return v;
        }
    }
}

/// Poll a task at most `max` rounds; `None` if it never yielded.
fn drive_max<T: Task>(t: &mut T, max: usize) -> Option<T::Output> {
    for _ in 0..max {
        if let Progress::Ready(v) = t.poll() {
            return Some(v);
        }
    }
    None
}

#[test]
fn identity_law() {
    let result1 = identity(0);
    let mut chain = sequential(Leaf::new(0), |x: i32| Leaf::new(identity(x)));
    let result2 = drive(&mut chain);
    assert_eq!(result1, result2);
}

#[test]
fn comb_associativity() {
    let a = Leaf::new(1);
    let b = |x: i32| Leaf::new(x + 1);
    let c = |x: i32| Leaf::new(x * 2);

    let mut left = sequential(sequential(a, b), c);
    let res1 = drive(&mut left);

    let a = Leaf::new(1);
    let mut right = sequential(a, move |x: i32| sequential(b(x), c));
    let res2 = drive(&mut right);

    assert_eq!(res1, res2, "Sequential composition should be associative");
}

#[test]
fn tests_associativity() {
    let mut t = Leaf::new(identity(0));
    assert_eq!(identity(0), drive(&mut t));
}

#[test]
fn leaf_yields_once() {
    let mut t = Leaf::new(7);
    assert!(!t.is_done());
    match t.poll() {
        Progress::Ready(v) => assert_eq!(v, 7),
        Progress::Pending => panic!("a leaf must yield on the first poll"),
    }
    assert!(t.is_done());
}

#[test]
fn delayed_pends_exactly_that_long() {
    let mut t = Delayed::new(9, 3);
    for _ in 0..3 {
        assert!(matches!(t.poll(), Progress::Pending));
    }
    match t.poll() {
        Progress::Ready(v) => assert_eq!(v, 9),
        Progress::Pending => panic!("the delay has elapsed"),
    }
}

#[test]
fn never_stays_pending() {
    let mut t: Never<i32> = Never::new();
    assert_eq!(drive_max(&mut t, 50), None);
    assert!(!t.is_done());
}

#[test]
fn join_yields_both_results() {
    let mut j = join_futures(Delayed::new(45, 2), Delayed::new(25, 5));
    assert_eq!(drive(&mut j), (45, 25));
}

#[test]
fn join_content_independent_of_finish_order() {
    // branch a finishes last
    let mut j = join_futures(Delayed::new(45, 5), Delayed::new(25, 1));
    let slow_a = drive(&mut j);
    // branch a finishes first
    let mut j = join_futures(Delayed::new(45, 1), Delayed::new(25, 5));
    let fast_a = drive(&mut j);
    assert_eq!(slow_a, (45, 25));
    assert_eq!(fast_a, (45, 25));
}

#[test]
fn join_of_ready_leaves_yields_on_first_poll() {
    let mut j = join_futures(Leaf::new(45), Leaf::new(25));
    match j.poll() {
        Progress::Ready(v) => assert_eq!(v, (45, 25)),
        Progress::Pending => panic!("both branches were ready"),
    }
}

#[test]
fn bimap_applies_both_mappers() {
    let mut j = join_futures_bimap(
        Delayed::new(45, 1),
        Delayed::new(25, 2),
        |x: i32| x + 1,
        |y: i32| y * 2,
    );
    assert_eq!(drive(&mut j), (46, 50));
}

#[test]
fn try_join_success_pairs_payloads() {
    let a: Delayed<Result<i32, &str>> = Delayed::new(Ok(45), 2);
    let b: Delayed<Result<i32, &str>> = Delayed::new(Ok(25), 1);
    let mut j = try_join(a, b);
    assert_eq!(drive(&mut j), Ok((45, 25)));
}

#[test]
fn try_join_short_circuits_on_error() {
    // branch a fails while branch b never completes: the error still comes
    let a: Delayed<Result<i32, &str>> = Delayed::new(Err("boom"), 2);
    let b: Never<Result<i32, &str>> = Never::new();
    let mut j = try_join(a, b);
    assert_eq!(drive_max(&mut j, 100), Some(Err("boom")));
}

#[test]
fn try_join_branch_order_breaks_ties() {
    // both branches become ready in the same round; a carries success and is
    // checked and frozen first, then b's failure is noticed and wins
    let a: Delayed<Result<i32, &str>> = Delayed::new(Ok(45), 1);
    let b: Delayed<Result<i32, &str>> = Delayed::new(Err("late"), 1);
    let mut j = try_join(a, b);
    assert_eq!(drive(&mut j), Err("late"));
}

#[test]
fn try_join_earlier_branch_b_failure_wins() {
    // b fails in an earlier round than a would: the first failure observed
    // in branch-check order is b's
    let a: Delayed<Result<i32, &str>> = Delayed::new(Err("slow"), 5);
    let b: Delayed<Result<i32, &str>> = Delayed::new(Err("quick"), 1);
    let mut j = try_join(a, b);
    assert_eq!(drive(&mut j), Err("quick"));
}

#[test]
fn try_join_same_round_failure_a_wins() {
    // both fail in the same round: a is checked first, so a's error wins
    let a: Delayed<Result<i32, &str>> = Delayed::new(Err("first"), 1);
    let b: Delayed<Result<i32, &str>> = Delayed::new(Err("second"), 1);
    let mut j = try_join(a, b);
    assert_eq!(drive(&mut j), Err("first"));
}

#[test]
fn sequential_runs_first_then_built_second() {
    let mut chain = sequential(Delayed::new(4, 3), |x: i32| Delayed::new(x * 10, 2));
    assert_eq!(drive(&mut chain), 40);
}

#[test]
fn sequence_discards_first_result() {
    let mut s = sequence(Delayed::new("ignored", 3), Delayed::new(25, 1));
    assert_eq!(drive(&mut s), 25);
}

#[test]
fn sequence_a_boxes_the_built_task() {
    let mut chain = sequence_a(Delayed::new(6, 2), |x: i32| Box::new(Leaf::new(x + 1)));
    assert_eq!(drive(&mut chain), 7);
}

#[test]
fn map_transforms_on_completion() {
    let mut m = comb::mapper::map(Delayed::new(45, 2), |x: i32| x * 2);
    assert_eq!(drive(&mut m), 90);
}

#[test]
fn combine_with_sums_exactly_once_after_both() {
    let calls = std::cell::Cell::new(0);
    let mut cw = combine_with(Delayed::new(45, 3), Delayed::new(25, 1), |x: i32, y: i32| {
        calls.set(calls.get() + 1);
        x + y
    });
    let out = drive(&mut cw);
    assert_eq!(out, 70);
    assert_eq!(calls.get(), 1, "combine must run exactly once");
}

#[test]
fn fut_id_yields_identity() {
    let mut t = fut_id::<SatSum>();
    assert_eq!(drive(&mut t), SatSum { total: 0 });
}

#[test]
fn monoid_combine_sums() {
    let mut mc = MonoidCombine::new(
        Delayed::new(SatSum { total: 5 }, 2),
        Delayed::new(SatSum { total: 3 }, 1),
    );
    assert_eq!(drive(&mut mc), SatSum { total: 8 });
}

#[test]
fn combine_boxed_sums() {
    let mut mc = combine(
        Leaf::new(SatSum { total: 40 }),
        Delayed::new(SatSum { total: 2 }, 4),
    );
    assert_eq!(drive(&mut mc), SatSum { total: 42 });
}

#[test]
fn monoid_combine_saturates_at_the_top() {
    let mut mc = MonoidCombine::new(
        Leaf::new(SatSum { total: u64::MAX }),
        Leaf::new(SatSum { total: 5 }),
    );
    assert_eq!(drive(&mut mc), SatSum { total: u64::MAX });
}

#[test]
fn monoid_fold_empty_is_identity() {
    let tasks: Vec<Leaf<SatSum>> = Vec::new();
    let mut f = monoid_fold(tasks);
    assert_eq!(drive(&mut f), SatSum { total: 0 });
}

#[test]
fn monoid_fold_of_ready_tasks_yields_on_first_poll() {
    let mut f = monoid_fold(vec![
        Leaf::new(SatSum { total: 5 }),
        Leaf::new(SatSum { total: 3 }),
    ]);
    match f.poll() {
        Progress::Ready(v) => assert_eq!(v, SatSum { total: 8 }),
        Progress::Pending => panic!("every task was ready"),
    }
}

#[test]
fn monoid_fold_of_nothing_yields_on_first_poll() {
    let tasks: Vec<Leaf<SatSum>> = Vec::new();
    let mut f = monoid_fold(tasks);
    match f.poll() {
        Progress::Ready(v) => assert_eq!(v, SatSum { total: 0 }),
        Progress::Pending => panic!("an empty fold is ready at once"),
    }
}

#[test]
fn monoid_fold_singleton_is_unchanged() {
    let mut f = monoid_fold(vec![Delayed::new(SatSum { total: 5 }, 2)]);
    assert_eq!(drive(&mut f), SatSum { total: 5 });
}

#[test]
fn monoid_fold_pair_sums_whatever_the_grouping() {
    let mut f = monoid_fold(vec![
        Delayed::new(SatSum { total: 5 }, 3),
        Delayed::new(SatSum { total: 3 }, 1),
    ]);
    assert_eq!(drive(&mut f), SatSum { total: 8 });

    let mut g = monoid_fold(vec![
        Delayed::new(SatSum { total: 3 }, 1),
        Delayed::new(SatSum { total: 5 }, 3),
    ]);
    assert_eq!(drive(&mut g), SatSum { total: 8 });
}

#[test]
fn combinators_nest() {
    // a join under a chain under a map, driven as one tree
    let join = join_futures(Delayed::new(2, 1), Delayed::new(3, 2));
    let chain = sequential(join, |(x, y): (i32, i32)| Delayed::new(x * y, 1));
    let mut root = comb::mapper::map(chain, |v: i32| v + 1);
    assert_eq!(drive(&mut root), 7);
}

#[test]
fn fallible_join_nests_as_a_task() {
    let a: Delayed<Result<i32, &str>> = Delayed::new(Ok(4), 1);
    let b: Delayed<Result<i32, &str>> = Delayed::new(Ok(5), 2);
    let j: TryJoin<_, _, i32, i32, &str> = try_join(a, b);
    let mut root = comb::mapper::map(j, |r: Result<(i32, i32), &str>| match r {
        Ok((x, y)) => x + y,
        Err(_) => 0,
    });
    assert_eq!(drive(&mut root), 9);
}
