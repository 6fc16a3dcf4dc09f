//! The shard registry: one slot per configured country, filled when the
//! country's shard is loaded.
//!
//! The set of countries is fixed when the registry is configured. Loading
//! fills or replaces slots and never adds one. Codes are kept in normal form,
//! and a lookup brings the code it is given into normal form first, so every
//! spelling of a country finds the same slot.

use vstd::prelude::*;
use crate::country::{is_normal, normalize, uppercase_of};
use crate::engine::{loaded_as, SearchEngine};
use crate::error::{LoadError, LoadFailure, LoadFailureView};
use crate::journal::{load_effects, Effect, Journal};

verus! {

/// The registry of shards, of any engine `S`.
pub struct ShardRegistry<S> {
    codes: Vec<String>,
    shards: Vec<Option<S>>,
}

/// The characters of each string.
pub open spec fn texts(strings: Seq<String>) -> Seq<Seq<char>> {
    strings.map_values(|s: String| s@)
}

/// The codes that a list of spellings configures: the normal form of each,
/// in the order of first appearance, each once.
pub open spec fn normal_codes(spellings: Seq<Seq<char>>) -> Seq<Seq<char>>
    decreases spellings.len(),
{
    if spellings.len() == 0 {
        Seq::empty()
    } else {
        let before = normal_codes(spellings.drop_last());
        let code = uppercase_of(spellings.last());
        if before.contains(code) {
            before
        } else {
            before.push(code)
        }
    }
}

/// `n` slots with nothing in them.
pub open spec fn empty_slots<S>(n: nat) -> Seq<Option<S>> {
    Seq::new(n, |i: int| None::<S>)
}

/// The codes whose slot holds a shard, in the order of the slots.
pub open spec fn loaded_among<S>(codes: Seq<Seq<char>>, shards: Seq<Option<S>>) -> Seq<Seq<char>>
    decreases codes.len(),
{
    if codes.len() == 0 || shards.len() == 0 {
        Seq::empty()
    } else {
        let before = loaded_among(codes.drop_last(), shards.drop_last());
        if shards.last() is Some {
            before.push(codes.last())
        } else {
            before
        }
    }
}

/// The slots after a load: where the load of a country gave a shard, that
/// shard, whole, in place of whatever the slot held; where it failed, or was
/// not attempted, the slot as it was.
pub open spec fn settled<S>(shards: Seq<Option<S>>, outcomes: Seq<Result<S, String>>) -> Seq<
    Option<S>,
> {
    Seq::new(
        shards.len(),
        |i: int|
            if i < outcomes.len() {
                match outcomes[i] {
                    Ok(shard) => Some(shard),
                    Err(_) => shards[i],
                }
            } else {
                shards[i]
            },
    )
}

/// The failures among the outcomes of a load, each with its country, in the
/// order of the slots.
pub open spec fn failures_of<S>(codes: Seq<Seq<char>>, outcomes: Seq<Result<S, String>>) -> Seq<
    LoadFailureView,
>
    decreases outcomes.len(),
{
    if outcomes.len() == 0 {
        Seq::empty()
    } else {
        let before = failures_of(codes, outcomes.drop_last());
        match outcomes.last() {
            Ok(_) => before,
            Err(detail) => before.push(
                LoadFailureView { country: codes[outcomes.len() - 1], detail: detail@ },
            ),
        }
    }
}

/// What a load reports: success when no country failed, and every failure
/// otherwise.
pub open spec fn reported<S>(codes: Seq<Seq<char>>, outcomes: Seq<Result<S, String>>) -> Result<
    (),
    Seq<LoadFailureView>,
> {
    let failures = failures_of(codes, outcomes);
    if failures.len() == 0 {
        Ok(())
    } else {
        Err(failures)
    }
}

/// What the result of a load says, with each string read as its characters.
pub open spec fn load_view(result: Result<(), LoadError>) -> Result<(), Seq<LoadFailureView>> {
    match result {
        Ok(()) => Ok(()),
        Err(error) => Err(error@),
    }
}

/// The place of `code` among `codes`, if it is there.
fn position(codes: &Vec<String>, code: &String) -> (found: Option<usize>)
    ensures
        match found {
            Some(i) => i < codes.len() && codes[i as int]@ == code@,
            None => !texts(codes@).contains(code@),
        },
{
    let mut i: usize = 0;
    while i < codes.len()
        invariant
            i <= codes.len(),
            forall|j: int| 0 <= j < i ==> codes[j]@ != code@,
        decreases codes.len() - i,
    {
        if codes[i] == *code {
            return Some(i);
        }
        i = i + 1;
    }
    None
}

/// Asks the engine to load the shard of the country `code`, once.
fn attempt<S: SearchEngine>(
    code: &String,
    index_path: &str,
    extra_item_path: &str,
    models_path: Option<&str>,
    journal: &mut Journal,
) -> (outcome: Result<S, String>)
    ensures
        loaded_as::<S>(code@, index_path, extra_item_path, models_path, outcome),
        final(journal)@ == old(journal)@.push(Effect::LoadAttempted { country: code@ }),
{
    let outcome = S::load(code.as_str(), index_path, extra_item_path, models_path);
    journal.note(Ghost(Effect::LoadAttempted { country: code@ }));
    outcome
}

impl<S> ShardRegistry<S> {
    /// The configured codes, one per slot, in the order of the slots.
    pub closed spec fn codes(&self) -> Seq<Seq<char>> {
        texts(self.codes@)
    }

    /// What each slot holds: the country's shard, or nothing yet.
    pub closed spec fn shards(&self) -> Seq<Option<S>> {
        self.shards@
    }

    /// Every registry is well formed: each code has its slot, no code occurs
    /// twice, and every code is in normal form.
    #[verifier::type_invariant]
    pub open spec fn wf(&self) -> bool {
        &&& self.codes().len() == self.shards().len()
        &&& self.codes().no_duplicates()
        &&& forall|i: int| 0 <= i < self.codes().len() ==> is_normal(#[trigger] self.codes()[i])
    }

    /// The set of configured codes.
    pub open spec fn configured(&self) -> Set<Seq<char>> {
        self.codes().to_set()
    }

    /// The shard in the slot of the normal-form code `code`, if the code is
    /// configured and its slot is filled.
    pub open spec fn shard_of(&self, code: Seq<char>) -> Option<S> {
        if self.codes().contains(code) {
            self.shards()[self.codes().index_of(code)]
        } else {
            None
        }
    }

    /// The shard that a request for `country`, in any spelling, is served by.
    pub open spec fn lookup(&self, country: Seq<char>) -> Option<S> {
        self.shard_of(uppercase_of(country))
    }

    /// The codes that can be searched at present, in the order of the slots.
    pub open spec fn loaded(&self) -> Seq<Seq<char>> {
        loaded_among(self.codes(), self.shards())
    }

    /// Configures a registry for `countries`: one empty slot for each country,
    /// under its normal-form code. A country given twice, in whatever
    /// spellings, gets one slot.
    pub fn configure(countries: Vec<String>) -> (registry: Self)
        ensures
            registry.wf(),
            registry.codes() == normal_codes(texts(countries@)),
            registry.shards() == empty_slots::<S>(registry.codes().len()),
    {
        let mut codes: Vec<String> = Vec::new();
        let mut shards: Vec<Option<S>> = Vec::new();
        let mut i: usize = 0;
        while i < countries.len()
            invariant
                i <= countries.len(),
                texts(codes@) == normal_codes(texts(countries@.take(i as int))),
                shards@ == empty_slots::<S>(codes.len() as nat),
                texts(codes@).no_duplicates(),
                forall|k: int| 0 <= k < codes.len() ==> is_normal(#[trigger] texts(codes@)[k]),
            decreases countries.len() - i,
        {
            let code = normalize(countries[i].as_str());
            let ghost so_far = texts(countries@.take(i as int));
            let ghost next = texts(countries@.take(i + 1));
            assert(next.drop_last() =~= so_far);
            assert(next.last() == countries[i as int]@);
            let found = position(&codes, &code);
            if found.is_none() {
                let ghost before = texts(codes@);
                codes.push(code);
                shards.push(None);
                assert(texts(codes@) =~= before.push(code@));
                assert(shards@ =~= empty_slots::<S>(codes.len() as nat));
            } else {
                assert(texts(codes@)[found.unwrap() as int] == code@);
            }
            i = i + 1;
        }
        assert(countries@.take(i as int) =~= countries@);
        ShardRegistry { codes, shards }
    }

    /// The number of configured countries, which is the number of slots.
    pub fn len(&self) -> (n: usize)
        ensures
            n == self.codes().len(),
    {
        self.codes.len()
    }

    /// The code of the slot `slot`.
    pub fn code(&self, slot: usize) -> (code: &String)
        requires
            slot < self.codes().len(),
        ensures
            code@ == self.codes()[slot as int],
    {
        &self.codes[slot]
    }

    /// The shard that serves `country`, in any spelling, or `None` where the
    /// country is not configured or not loaded. Absence is an ordinary answer.
    pub fn get(&self, country: &str) -> (found: Option<&S>)
        ensures
            match (found, self.lookup(country@)) {
                (Some(shard), Some(held)) => *shard == held,
                (None, None) => true,
                _ => false,
            },
    {
        proof {
            use_type_invariant(self);
        }
        let code = normalize(country);
        match position(&self.codes, &code) {
            Some(slot) => {
                assert(self.codes()[slot as int] == code@);
                assert(self.codes().index_of(code@) == slot);
                self.shards[slot].as_ref()
            },
            None => None,
        }
    }

    /// The codes that can be searched at present: those whose shard is
    /// loaded, not all that are configured.
    pub fn list_countries(&self) -> (listed: Vec<String>)
        ensures
            texts(listed@) == self.loaded(),
    {
        proof {
            use_type_invariant(self);
        }
        let mut listed: Vec<String> = Vec::new();
        let mut i: usize = 0;
        while i < self.codes.len()
            invariant
                i <= self.codes.len(),
                self.codes.len() == self.shards.len(),
                texts(listed@) == loaded_among(
                    texts(self.codes@).take(i as int),
                    self.shards@.take(i as int),
                ),
            decreases self.codes.len() - i,
        {
            let ghost codes_next = texts(self.codes@).take(i + 1);
            let ghost shards_next = self.shards@.take(i + 1);
            assert(codes_next.drop_last() =~= texts(self.codes@).take(i as int));
            assert(shards_next.drop_last() =~= self.shards@.take(i as int));
            if self.shards[i].is_some() {
                let ghost before = texts(listed@);
                listed.push(self.codes[i].clone());
                assert(texts(listed@) =~= before.push(self.codes[i as int]@));
            }
            i = i + 1;
        }
        assert(texts(self.codes@).take(i as int) =~= texts(self.codes@));
        assert(self.shards@.take(i as int) =~= self.shards@);
        listed
    }

    /// Settles the slot `slot` after an attempt to load its country. A shard
    /// goes into the slot whole, in place of whatever was there. A failure
    /// leaves the slot as it was and is handed back with the country's code.
    pub fn record_load(&mut self, slot: usize, outcome: Result<S, String>) -> (failure: Option<
        LoadFailure,
    >)
        requires
            slot < old(self).codes().len(),
        ensures
            final(self).codes() == old(self).codes(),
            final(self).shards() == match outcome {
                Ok(shard) => old(self).shards().update(slot as int, Some(shard)),
                Err(_) => old(self).shards(),
            },
            match outcome {
                Ok(_) => failure is None,
                Err(detail) => failure is Some && failure.unwrap()@ == (LoadFailureView {
                    country: old(self).codes()[slot as int],
                    detail: detail@,
                }),
            },
    {
        proof {
            use_type_invariant(&*self);
        }
        match outcome {
            Ok(shard) => {
                self.shards[slot] = Some(shard);
                None
            },
            Err(detail) => Some(LoadFailure { country: self.codes[slot].clone(), detail }),
        }
    }
}

impl<S: SearchEngine> ShardRegistry<S> {
    /// This registry is what a load from the given paths made of `before`,
    /// and `result` is what that load reported: the countries are the same,
    /// and there is one outcome of the engine for each, in the order of the
    /// slots, from which the slots and the report follow.
    pub open spec fn reloaded_from(
        &self,
        before: Self,
        index_path: &str,
        extra_item_path: &str,
        models_path: Option<&str>,
        result: Result<(), LoadError>,
    ) -> bool {
        &&& self.codes() == before.codes()
        &&& exists|outcomes: Seq<Result<S, String>>|
            {
                &&& outcomes.len() == before.codes().len()
                &&& forall|i: int|
                    0 <= i < outcomes.len() ==> loaded_as::<S>(
                        before.codes()[i],
                        index_path,
                        extra_item_path,
                        models_path,
                        #[trigger] outcomes[i],
                    )
                &&& self.shards() == settled(before.shards(), outcomes)
                &&& load_view(result) == reported(before.codes(), outcomes)
            }
    }

    /// Loads the shard of every configured country from the files under the
    /// given paths; see [`ShardRegistry::load_all_noting`].
    pub fn load_all(
        &mut self,
        index_path: &str,
        extra_item_path: &str,
        models_path: Option<&str>,
    ) -> (result: Result<(), LoadError>)
        ensures
            final(self).wf(),
            final(self).reloaded_from(*old(self), index_path, extra_item_path, models_path, result),
    {
        let mut journal = Journal::new();
        self.load_all_noting(index_path, extra_item_path, models_path, &mut journal)
    }

    /// Loads the shard of every configured country from the files under the
    /// given paths, and writes into `journal` what that does outside the
    /// dispatcher.
    ///
    /// Each country is loaded by itself, once: a country that fails does not
    /// stop the others and is not tried again. The result is `Ok` only if
    /// every country loaded; otherwise it names every country that failed,
    /// with the engine's reason. A slot whose country failed keeps what it
    /// held before, so a reload that fails for a country leaves that
    /// country's earlier shard in service.
    pub fn load_all_noting(
        &mut self,
        index_path: &str,
        extra_item_path: &str,
        models_path: Option<&str>,
        journal: &mut Journal,
    ) -> (result: Result<(), LoadError>)
        ensures
            final(self).wf(),
            final(self).reloaded_from(*old(self), index_path, extra_item_path, models_path, result),
            final(journal)@ == old(journal)@ + load_effects(old(self).codes()),
    {
        proof {
            use_type_invariant(&*self);
        }
        let mut failures: Vec<LoadFailure> = Vec::new();
        let ghost mut outcomes: Seq<Result<S, String>> = Seq::empty();
        let n = self.len();
        let mut i: usize = 0;
        assert(journal@ =~= old(journal)@ + load_effects(old(self).codes().take(0)));
        while i < n
            invariant
                i <= n,
                n == old(self).codes().len(),
                self.codes() == old(self).codes(),
                self.shards().len() == n,
                outcomes.len() == i,
                forall|k: int|
                    0 <= k < i ==> loaded_as::<S>(
                        old(self).codes()[k],
                        index_path,
                        extra_item_path,
                        models_path,
                        #[trigger] outcomes[k],
                    ),
                self.shards() == settled(old(self).shards(), outcomes),
                failures@.map_values(|failure: LoadFailure| failure@) == failures_of(
                    old(self).codes(),
                    outcomes,
                ),
                journal@ == old(journal)@ + load_effects(old(self).codes().take(i as int)),
            decreases n - i,
        {
            let outcome = attempt(self.code(i), index_path, extra_item_path, models_path, journal);
            let ghost before = outcomes;
            let ghost failures_before = failures@.map_values(|failure: LoadFailure| failure@);
            proof {
                outcomes = outcomes.push(outcome);
                assert(outcomes.drop_last() =~= before);
                assert(old(self).codes().take(i + 1).drop_last() =~= old(self).codes().take(
                    i as int,
                ));
                assert(journal@ =~= old(journal)@ + load_effects(old(self).codes().take(i + 1)));
            }
            let failure = self.record_load(i, outcome);
            match failure {
                Some(failure) => {
                    failures.push(failure);
                    assert(failures@.map_values(|failure: LoadFailure| failure@)
                        =~= failures_before.push(failure@));
                },
                None => {},
            }
            assert(self.shards() =~= settled(old(self).shards(), outcomes));
            i = i + 1;
        }
        assert(old(self).codes().take(i as int) =~= old(self).codes());
        if failures.len() == 0 {
            Ok(())
        } else {
            let error = LoadError { failures };
            Err(error)
        }
    }
}

} // verus!
