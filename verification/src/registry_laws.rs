//! What holds of every registry, of configuring one and of loading one.

use vstd::prelude::*;
use crate::country::{same_country, uppercase_of};
use crate::error::LoadFailureView;
use crate::registry::{
    empty_slots,
    failures_of,
    loaded_among,
    normal_codes,
    reported,
    settled,
    ShardRegistry,
};

verus! {

/// The configured codes hold no code twice, hold the normal form of every
/// spelling that was given, and hold nothing else.
pub proof fn lemma_configured_codes(spellings: Seq<Seq<char>>)
    ensures
        normal_codes(spellings).no_duplicates(),
        forall|k: int|
            0 <= k < spellings.len() ==> normal_codes(spellings).contains(
                uppercase_of(#[trigger] spellings[k]),
            ),
        forall|i: int|
            0 <= i < normal_codes(spellings).len() ==> exists|k: int|
                0 <= k < spellings.len() && uppercase_of(spellings[k])
                    == #[trigger] normal_codes(spellings)[i],
    decreases spellings.len(),
{
    if spellings.len() > 0 {
        let earlier = spellings.drop_last();
        let before = normal_codes(earlier);
        let now = normal_codes(spellings);
        let code = uppercase_of(spellings.last());
        lemma_configured_codes(earlier);
        assert forall|k: int| 0 <= k < spellings.len() implies now.contains(
            uppercase_of(#[trigger] spellings[k]),
        ) by {
            if k < earlier.len() {
                assert(earlier[k] == spellings[k]);
                let at = before.index_of(uppercase_of(spellings[k]));
                assert(now[at] == uppercase_of(spellings[k]));
            } else if !before.contains(code) {
                assert(now[before.len() as int] == code);
            }
        }
        assert forall|i: int| 0 <= i < now.len() implies exists|k: int|
            0 <= k < spellings.len() && uppercase_of(spellings[k]) == #[trigger] now[i] by {
            if i < before.len() {
                let k = choose|k: int|
                    0 <= k < earlier.len() && uppercase_of(earlier[k]) == before[i];
                assert(earlier[k] == spellings[k]);
            } else {
                assert(uppercase_of(spellings[spellings.len() - 1]) == now[i]);
            }
        }
    }
}

/// Countries that are configured already add no slot: a list of countries
/// followed by further spellings of countries of that list configures the
/// codes of the list alone.
pub proof fn lemma_repeated_countries_add_no_slot(first: Seq<Seq<char>>, again: Seq<Seq<char>>)
    ensures
        (forall|k: int|
            0 <= k < again.len() ==> normal_codes(first).contains(
                uppercase_of(#[trigger] again[k]),
            )) ==> normal_codes(first + again) == normal_codes(first),
    decreases again.len(),
{
    if again.len() == 0 {
        assert(first + again =~= first);
    } else {
        let earlier = again.drop_last();
        lemma_repeated_countries_add_no_slot(first, earlier);
        assert((first + again).drop_last() =~= first + earlier);
        assert((first + again).last() == again[again.len() - 1]);
        if forall|k: int|
            0 <= k < again.len() ==> normal_codes(first).contains(
                uppercase_of(#[trigger] again[k]),
            ) {
            assert forall|k: int| 0 <= k < earlier.len() implies normal_codes(first).contains(
                uppercase_of(#[trigger] earlier[k]),
            ) by {
                assert(earlier[k] == again[k]);
            }
        }
    }
}

/// Configuring the same countries a second time changes nothing.
pub proof fn lemma_configuring_again_changes_nothing(spellings: Seq<Seq<char>>)
    ensures
        normal_codes(spellings + spellings) == normal_codes(spellings),
{
    lemma_configured_codes(spellings);
    lemma_repeated_countries_add_no_slot(spellings, spellings);
}

/// Every spelling of a country finds the same shard: a lookup depends on the
/// normal form of the code alone.
pub proof fn lemma_every_spelling_finds_the_same_shard<S>(
    registry: ShardRegistry<S>,
    one: Seq<char>,
    other: Seq<char>,
)
    ensures
        same_country(one, other) ==> registry.lookup(one) == registry.lookup(other),
{
}

/// A lookup of a configured code finds what its slot holds, under every
/// spelling of the code: where the slot is filled, the lookup succeeds.
pub proof fn lemma_loaded_country_is_found<S>(
    registry: ShardRegistry<S>,
    slot: int,
    spelling: Seq<char>,
)
    requires
        registry.wf(),
        0 <= slot < registry.codes().len(),
    ensures
        registry.shard_of(registry.codes()[slot]) == registry.shards()[slot],
        uppercase_of(spelling) == registry.codes()[slot] ==> registry.lookup(spelling)
            == registry.shards()[slot],
{
    let code = registry.codes()[slot];
    assert(registry.codes().contains(code));
    assert(registry.codes().index_of(code) == slot);
}

/// A country that was never configured has no shard, whatever was loaded:
/// only configured countries have a slot.
pub proof fn lemma_unconfigured_country_has_no_shard<S>(
    registry: ShardRegistry<S>,
    country: Seq<char>,
)
    ensures
        !registry.configured().contains(uppercase_of(country)) ==> registry.lookup(country)
            is None,
{
}

/// A code is among the loaded codes exactly if its slot holds a shard, the
/// loaded codes are no more than the codes, and they hold no code twice if
/// the codes hold none twice.
pub proof fn lemma_loaded_among<S>(codes: Seq<Seq<char>>, shards: Seq<Option<S>>)
    requires
        codes.len() == shards.len(),
    ensures
        loaded_among(codes, shards).len() <= codes.len(),
        forall|code: Seq<char>|
            #[trigger] loaded_among(codes, shards).contains(code) <==> exists|i: int|
                0 <= i < codes.len() && codes[i] == code && shards[i] is Some,
        codes.no_duplicates() ==> loaded_among(codes, shards).no_duplicates(),
    decreases codes.len(),
{
    if codes.len() > 0 {
        let last = codes.len() - 1;
        let earlier = codes.drop_last();
        let earlier_shards = shards.drop_last();
        let before = loaded_among(earlier, earlier_shards);
        let now = loaded_among(codes, shards);
        lemma_loaded_among(earlier, earlier_shards);
        assert forall|code: Seq<char>| #[trigger] now.contains(code) implies exists|i: int|
            0 <= i < codes.len() && codes[i] == code && shards[i] is Some by {
            if now.index_of(code) < before.len() {
                assert(before.contains(code));
                let i = choose|i: int|
                    0 <= i < earlier.len() && earlier[i] == code && earlier_shards[i] is Some;
                assert(codes[i] == code && shards[i] is Some);
            } else {
                assert(codes[last] == code && shards[last] is Some);
            }
        }
        assert forall|code: Seq<char>|
            (exists|i: int| 0 <= i < codes.len() && codes[i] == code && shards[i] is Some)
            implies #[trigger] now.contains(code) by {
            let i = choose|i: int| 0 <= i < codes.len() && codes[i] == code && shards[i] is Some;
            if i < earlier.len() {
                assert(earlier[i] == code && earlier_shards[i] is Some);
                assert(before.contains(code));
                assert(now[before.index_of(code)] == code);
            } else {
                assert(now[before.len() as int] == code);
            }
        }
        if codes.no_duplicates() && shards.last() is Some {
            if before.contains(codes.last()) {
                let i = choose|i: int|
                    0 <= i < earlier.len() && earlier[i] == codes.last()
                        && earlier_shards[i] is Some;
                assert(codes[i] == codes[last]);
            }
        }
    }
}

/// What is listed as available is what can be found: a code is listed
/// exactly if a lookup of it finds a shard, and no code is listed twice.
pub proof fn lemma_listed_are_the_loaded<S>(registry: ShardRegistry<S>)
    requires
        registry.wf(),
    ensures
        registry.loaded().no_duplicates(),
        registry.loaded().len() <= registry.codes().len(),
        forall|code: Seq<char>|
            #[trigger] registry.loaded().contains(code) <==> registry.shard_of(code) is Some,
{
    let codes = registry.codes();
    let shards = registry.shards();
    lemma_loaded_among(codes, shards);
    assert forall|code: Seq<char>| #[trigger] registry.loaded().contains(code)
        implies registry.shard_of(code) is Some by {
        let i = choose|i: int| 0 <= i < codes.len() && codes[i] == code && shards[i] is Some;
        lemma_loaded_country_is_found(registry, i, code);
    }
    assert forall|code: Seq<char>| registry.shard_of(code) is Some
        implies #[trigger] registry.loaded().contains(code) by {
        let i = codes.index_of(code);
        assert(codes[i] == code && shards[i] is Some);
    }
}

/// A load leaves every slot either as it was or holding the whole shard
/// that the engine returned for its country; no slot holds anything else.
pub proof fn lemma_every_slot_is_kept_or_replaced_whole<S>(
    shards: Seq<Option<S>>,
    outcomes: Seq<Result<S, String>>,
    slot: int,
)
    requires
        shards.len() == outcomes.len(),
        0 <= slot < shards.len(),
    ensures
        settled(shards, outcomes).len() == shards.len(),
        outcomes[slot] is Err ==> settled(shards, outcomes)[slot] == shards[slot],
        outcomes[slot] is Ok ==> settled(shards, outcomes)[slot] == Some(outcomes[slot]->Ok_0),
{
}

/// A load reports success exactly if every country loaded, and otherwise
/// reports at least one failure and no more failures than countries.
pub proof fn lemma_reported_ok_iff_all_loaded<S>(
    codes: Seq<Seq<char>>,
    outcomes: Seq<Result<S, String>>,
)
    ensures
        reported(codes, outcomes) is Ok <==> forall|i: int|
            0 <= i < outcomes.len() ==> (#[trigger] outcomes[i]) is Ok,
        failures_of(codes, outcomes).len() <= outcomes.len(),
        reported(codes, outcomes) is Err ==> reported(codes, outcomes)->Err_0.len() > 0,
    decreases outcomes.len(),
{
    if outcomes.len() > 0 {
        let earlier = outcomes.drop_last();
        lemma_reported_ok_iff_all_loaded(codes, earlier);
        if reported(codes, outcomes) is Ok {
            assert forall|i: int| 0 <= i < outcomes.len() implies (#[trigger] outcomes[i])
                is Ok by {
                if i < earlier.len() {
                    assert(earlier[i] == outcomes[i]);
                }
            }
        }
        if forall|i: int| 0 <= i < outcomes.len() ==> (#[trigger] outcomes[i]) is Ok {
            assert forall|i: int| 0 <= i < earlier.len() implies (#[trigger] earlier[i])
                is Ok by {
                assert(earlier[i] == outcomes[i]);
            }
        }
    }
}

/// Where every country loads, every slot is filled and nothing is reported.
pub proof fn lemma_all_loaded<S>(codes: Seq<Seq<char>>, outcomes: Seq<Result<S, String>>)
    requires
        codes.len() == outcomes.len(),
        forall|i: int| 0 <= i < outcomes.len() ==> (#[trigger] outcomes[i]) is Ok,
    ensures
        loaded_among(codes, settled(empty_slots::<S>(codes.len()), outcomes)) == codes,
        reported(codes, outcomes) == Ok::<(), Seq<LoadFailureView>>(()),
    decreases codes.len(),
{
    lemma_reported_ok_iff_all_loaded(codes, outcomes);
    let after = settled(empty_slots::<S>(codes.len()), outcomes);
    if codes.len() > 0 {
        let earlier = settled(empty_slots::<S>(codes.drop_last().len()), outcomes.drop_last());
        lemma_all_loaded(codes.drop_last(), outcomes.drop_last());
        assert(after.drop_last() =~= earlier);
        assert(after.last() is Some);
        assert(codes.drop_last().push(codes.last()) =~= codes);
    } else {
        assert(loaded_among(codes, after) =~= codes);
    }
}

/// The failures reported when exactly one country fails: that country, with
/// the engine's reason, and nothing else.
proof fn lemma_one_failure_reported<S>(
    codes: Seq<Seq<char>>,
    outcomes: Seq<Result<S, String>>,
    failed: int,
)
    requires
        0 <= failed < outcomes.len(),
        outcomes[failed] is Err,
        forall|i: int| 0 <= i < outcomes.len() && i != failed ==> (#[trigger] outcomes[i]) is Ok,
    ensures
        failures_of(codes, outcomes) == seq![
            LoadFailureView { country: codes[failed], detail: outcomes[failed]->Err_0@ },
        ],
    decreases outcomes.len(),
{
    let earlier = outcomes.drop_last();
    if failed == outcomes.len() - 1 {
        lemma_reported_ok_iff_all_loaded(codes, earlier);
        assert(failures_of(codes, earlier).len() == 0);
        assert(failures_of(codes, outcomes) =~= seq![
            LoadFailureView { country: codes[failed], detail: outcomes[failed]->Err_0@ },
        ]);
    } else {
        assert(earlier[failed] == outcomes[failed]);
        lemma_one_failure_reported(codes, earlier, failed);
        assert(outcomes.last() is Ok);
    }
}

/// A load goes on past a country that fails. Of `codes.len()` countries
/// whose slots are empty, let the load of the country at `failed` fail and
/// every other succeed: afterwards every country but that one is listed, in
/// order, which makes one fewer than were configured, and the report names
/// that one country with the engine's reason.
pub proof fn lemma_one_failure_leaves_the_rest_loaded<S>(
    codes: Seq<Seq<char>>,
    outcomes: Seq<Result<S, String>>,
    failed: int,
)
    requires
        codes.len() == outcomes.len(),
        0 <= failed < outcomes.len(),
        outcomes[failed] is Err,
        forall|i: int| 0 <= i < outcomes.len() && i != failed ==> (#[trigger] outcomes[i]) is Ok,
    ensures
        loaded_among(codes, settled(empty_slots::<S>(codes.len()), outcomes)) == codes.remove(
            failed,
        ),
        loaded_among(codes, settled(empty_slots::<S>(codes.len()), outcomes)).len() == codes.len()
            - 1,
        reported(codes, outcomes) == Err::<(), Seq<LoadFailureView>>(
            seq![LoadFailureView { country: codes[failed], detail: outcomes[failed]->Err_0@ }],
        ),
    decreases codes.len(),
{
    lemma_one_failure_reported(codes, outcomes, failed);
    let after = settled(empty_slots::<S>(codes.len()), outcomes);
    let earlier = settled(empty_slots::<S>(codes.drop_last().len()), outcomes.drop_last());
    assert(after.drop_last() =~= earlier);
    if failed == codes.len() - 1 {
        lemma_all_loaded(codes.drop_last(), outcomes.drop_last());
        assert(after.last() is None);
        assert(codes.remove(failed) =~= codes.drop_last());
    } else {
        assert(outcomes.drop_last()[failed] == outcomes[failed]);
        lemma_one_failure_leaves_the_rest_loaded(codes.drop_last(), outcomes.drop_last(), failed);
        assert(after.last() is Some);
        assert(codes.drop_last().remove(failed).push(codes.last()) =~= codes.remove(failed));
    }
}

} // verus!
