//! The search engine as the dispatcher sees it: a shard that can be loaded for
//! a country and asked for the items closest to a user's events.

use vstd::prelude::*;

verus! {

/// A score, kept as the bit pattern of the 32-bit floating-point number that
/// the engine computed. The dispatcher carries scores; it never computes with
/// them.
#[derive(Clone, Copy, Debug, PartialEq, Eq)]
pub struct Score {
    pub bits: u32,
}

impl Score {
    /// The score whose bits are all zero: the floating-point number `0.0`.
    pub open spec fn spec_zero() -> Score {
        Score { bits: 0 }
    }

    /// The score whose bits are all zero: the floating-point number `0.0`.
    #[verifier::when_used_as_spec(spec_zero)]
    pub fn zero() -> (score: Score)
        ensures
            score == Score::spec_zero(),
    {
        Score { bits: 0 }
    }
}

/// One interaction of a user with an item, as the engine takes it.
#[derive(Clone, Copy, Debug, PartialEq, Eq)]
pub struct UserEvent {
    /// The partner the event came from.
    pub index: i32,
    /// The item the user interacted with.
    pub label: i64,
    /// When it happened.
    pub timestamp: u64,
    /// What kind of interaction it was.
    pub event_type: i32,
}

/// A shard of the search engine: the index of one country.
///
/// The dispatcher asks nothing of an engine beyond these two operations, and
/// assumes nothing of what they return. An engine is expected to return at
/// most `result_count` items, best first; the dispatcher passes on what it is
/// given, in the order it is given.
pub trait SearchEngine: Sized {
    /// The scoring configuration that every search is given.
    type Model;

    /// Loads the shard of `country` from the files under the given paths.
    fn load(
        country: &str,
        index_path: &str,
        extra_item_path: &str,
        models_path: Option<&str>,
    ) -> Result<Self, String>;

    /// The items of index `index_id` closest to what `events` describe, each
    /// with its score, or the reason why the search failed.
    fn get_closest_items(
        &self,
        events: &Vec<UserEvent>,
        index_id: i32,
        result_count: usize,
        model: &Self::Model,
    ) -> Result<Vec<(i64, Score)>, String>;
}

/// `outcome` is what loading the shard of the country `code` from these paths
/// gave.
pub open spec fn loaded_as<S: SearchEngine>(
    code: Seq<char>,
    index_path: &str,
    extra_item_path: &str,
    models_path: Option<&str>,
    outcome: Result<S, String>,
) -> bool {
    exists|country: &str|
        country@ == code && #[trigger] call_ensures(
            S::load,
            (country, index_path, extra_item_path, models_path),
            outcome,
        )
}

/// `outcome` is what `shard` answered to a search with these arguments.
pub open spec fn answered_with<S: SearchEngine>(
    shard: &S,
    events: Seq<UserEvent>,
    index_id: i32,
    result_count: usize,
    model: &S::Model,
    outcome: Result<Vec<(i64, Score)>, String>,
) -> bool {
    exists|sent: Vec<UserEvent>|
        sent@ == events && #[trigger] call_ensures(
            S::get_closest_items,
            (shard, &sent, index_id, result_count, model),
            outcome,
        )
}

} // verus!
