//! A small algebra of cooperatively scheduled task combinators.
//!
//! A task is the smallest unit of suspended work: it can be asked to make
//! progress and reports either "not yet" or its final value, exactly once.
//! Combinators compose tasks into trees — joins, chains, mappers, combiners
//! and monoidal folds — and are tasks themselves, so they nest arbitrarily.
//! An external driver repeatedly polls the root until it yields.

pub mod chain;
pub mod combine;
pub mod fallible;
pub mod join;
pub mod leaf;
pub mod mapper;
pub mod monoid;
pub mod task;

pub use chain::sequence;
pub use chain::sequence_a;
pub use chain::sequential;
pub use chain::sequential_associativity_law;
pub use chain::sequential_exact;
pub use chain::sequential_first_pin_law;
pub use chain::sequential_frame_parts;
pub use chain::sequential_identity_law;
pub use chain::sequential_value_law;
pub use chain::Sequence;
pub use chain::Sequential;
pub use combine::combine_with;
pub use combine::combine_with_exact;
pub use combine::combine_with_frame_is_combiner;
pub use combine::CombineWith;
pub use fallible::try_join;
pub use fallible::try_join_error_provenance;
pub use fallible::try_join_short_circuit;
pub use fallible::try_join_short_circuit_b;
pub use fallible::try_join_success;
pub use fallible::try_join_success_provenance;
pub use fallible::TryJoin;
pub use join::join_futures;
pub use join::join_futures_bimap;
pub use join::join_futures_bimap_exact;
pub use join::join_futures_bimap_frame_is_mappers;
pub use join::join_futures_content_independence;
pub use join::JoinFutures;
pub use join::JoinFuturesBMap;
pub use leaf::Delayed;
pub use leaf::Leaf;
pub use leaf::never_has_no_terminal_state;
pub use leaf::Never;
pub use mapper::map_exact;
pub use mapper::mapping_frame_is_mapper;
pub use mapper::Mapping;
pub use monoid::combine;
pub use monoid::fold_values;
pub use monoid::fold_values_append;
pub use monoid::fold_values_empty;
pub use monoid::fold_values_singleton;
pub use monoid::fut_id;
pub use monoid::monoid_fold;
pub use monoid::Monoid;
pub use monoid::MonoidCombine;
pub use monoid::MonoidFold;
pub use monoid::SatSum;
pub use task::identity;
pub use task::some_completed_task_yields;
pub use task::Branch;
pub use task::Progress;
pub use task::Task;
