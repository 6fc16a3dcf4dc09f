//! A record of what a request does to the world outside the dispatcher.
//!
//! The counter, the latency histogram and the engine are reached through
//! shared references, so a contract cannot speak of them directly. The
//! dispatcher therefore writes each such step into a journal as it takes it,
//! and its contracts speak of the journal. A journal exists for proofs only:
//! it holds no data in a running program.

use vstd::prelude::*;

verus! {

/// One step that reaches outside the dispatcher.
pub enum Effect {
    /// The request counter was marked once.
    RequestCounted,
    /// The clock was read to open a latency scope; it read `at`.
    TimerStarted { at: u64 },
    /// A shard was asked to search.
    EngineInvoked,
    /// The clock was read again, it read `end`, and the pair of readings
    /// `start` and `end` was handed to the latency histogram as one
    /// observation.
    LatencyRecorded { start: u64, end: u64 },
    /// The engine was asked to load the shard of `country`.
    LoadAttempted { country: Seq<char> },
}

/// The kinds of step, without what a step carries.
pub enum Step {
    Count,
    Start,
    Invoke,
    Record,
    Load,
}

impl Effect {
    /// The kind of this step.
    pub open spec fn step(self) -> Step {
        match self {
            Effect::RequestCounted => Step::Count,
            Effect::TimerStarted { .. } => Step::Start,
            Effect::EngineInvoked => Step::Invoke,
            Effect::LatencyRecorded { .. } => Step::Record,
            Effect::LoadAttempted { .. } => Step::Load,
        }
    }
}

/// The steps taken so far, oldest first.
pub struct Journal {
    effects: Ghost<Seq<Effect>>,
}

impl View for Journal {
    type V = Seq<Effect>;

    closed spec fn view(&self) -> Seq<Effect> {
        self.effects@
    }
}

impl Journal {
    /// A journal with nothing in it.
    pub fn new() -> (journal: Journal)
        ensures
            journal@ == Seq::<Effect>::empty(),
    {
        Journal { effects: Ghost(Seq::empty()) }
    }

    /// Writes one step down. Only the functions that take the step call this,
    /// each right after taking it.
    pub(crate) fn note(&mut self, Ghost(effect): Ghost<Effect>)
        ensures
            final(self)@ == old(self)@.push(effect),
    {
        self.effects = Ghost(self.effects@.push(effect));
    }
}

/// How many of `effects` are steps of the kind `step`.
pub open spec fn times(effects: Seq<Effect>, step: Step) -> nat
    decreases effects.len(),
{
    if effects.len() == 0 {
        0
    } else {
        times(effects.drop_last(), step) + if effects.last().step() == step {
            1nat
        } else {
            0nat
        }
    }
}

/// What serving one request does outside the dispatcher, in order, where the
/// clock read `started` at first and `stopped` at last: the request is
/// counted and the timer started before anything that may fail, the shard is
/// asked only if there is one, and the latency is recorded last, from the
/// reading the timer was started with.
pub open spec fn request_effects(shard_found: bool, started: u64, stopped: u64) -> Seq<Effect> {
    if shard_found {
        seq![
            Effect::RequestCounted,
            Effect::TimerStarted { at: started },
            Effect::EngineInvoked,
            Effect::LatencyRecorded { start: started, end: stopped },
        ]
    } else {
        seq![
            Effect::RequestCounted,
            Effect::TimerStarted { at: started },
            Effect::LatencyRecorded { start: started, end: stopped },
        ]
    }
}

/// Whether a shard is found or not, and whatever the clock reads, a request
/// is counted exactly once and its latency is recorded exactly once; without
/// a shard the engine is not asked at all, and with one it is asked exactly
/// once.
pub proof fn lemma_counted_and_timed_exactly_once(shard_found: bool, started: u64, stopped: u64)
    ensures
        times(request_effects(shard_found, started, stopped), Step::Count) == 1,
        times(request_effects(shard_found, started, stopped), Step::Start) == 1,
        times(request_effects(shard_found, started, stopped), Step::Record) == 1,
        times(request_effects(shard_found, started, stopped), Step::Invoke) == if shard_found {
            1nat
        } else {
            0nat
        },
{
    let all = request_effects(shard_found, started, stopped);
    if shard_found {
        let three = all.drop_last();
        let two = three.drop_last();
        let one = two.drop_last();
        assert(one.drop_last().len() == 0);
        reveal_with_fuel(times, 5);
    } else {
        let two = all.drop_last();
        let one = two.drop_last();
        assert(one.drop_last().len() == 0);
        reveal_with_fuel(times, 4);
    }
}

/// Counting steps of a kind adds up over what is written one after another.
pub proof fn lemma_times_adds_up(earlier: Seq<Effect>, later: Seq<Effect>, step: Step)
    ensures
        times(earlier + later, step) == times(earlier, step) + times(later, step),
    decreases later.len(),
{
    if later.len() == 0 {
        assert(earlier + later =~= earlier);
    } else {
        lemma_times_adds_up(earlier, later.drop_last(), step);
        assert((earlier + later).drop_last() =~= earlier + later.drop_last());
    }
}

/// Every request served adds exactly one count and exactly one latency to
/// what a journal held before, whether a shard is found or not: after any
/// number of requests, as many were counted and as many timed as were served.
pub proof fn lemma_each_request_adds_one(
    before: Seq<Effect>,
    shard_found: bool,
    started: u64,
    stopped: u64,
)
    ensures
        times(before + request_effects(shard_found, started, stopped), Step::Count) == times(
            before,
            Step::Count,
        ) + 1,
        times(before + request_effects(shard_found, started, stopped), Step::Record) == times(
            before,
            Step::Record,
        ) + 1,
{
    let added = request_effects(shard_found, started, stopped);
    lemma_counted_and_timed_exactly_once(shard_found, started, stopped);
    lemma_times_adds_up(before, added, Step::Count);
    lemma_times_adds_up(before, added, Step::Record);
}

/// What loading a registry does outside the dispatcher: the engine is asked
/// to load each configured country, in the order of the slots, and nothing
/// else is done.
pub open spec fn load_effects(codes: Seq<Seq<char>>) -> Seq<Effect> {
    codes.map_values(|code: Seq<char>| Effect::LoadAttempted { country: code })
}

/// How often `effects` hold an attempt to load `country`.
pub open spec fn attempts(effects: Seq<Effect>, country: Seq<char>) -> nat
    decreases effects.len(),
{
    if effects.len() == 0 {
        0
    } else {
        attempts(effects.drop_last(), country) + if effects.last() == (Effect::LoadAttempted {
            country,
        }) {
            1nat
        } else {
            0nat
        }
    }
}

/// A load asks the engine as often as there are countries, and does nothing
/// else outside the dispatcher. Where no code occurs twice, as in every
/// registry, it asks exactly once for each configured country and never for
/// another: no country is tried again.
pub proof fn lemma_each_country_is_attempted_once(codes: Seq<Seq<char>>, country: Seq<char>)
    ensures
        load_effects(codes).len() == codes.len(),
        times(load_effects(codes), Step::Load) == codes.len(),
        !codes.contains(country) ==> attempts(load_effects(codes), country) == 0,
        codes.no_duplicates() && codes.contains(country) ==> attempts(
            load_effects(codes),
            country,
        ) == 1,
    decreases codes.len(),
{
    if codes.len() > 0 {
        let earlier = codes.drop_last();
        lemma_each_country_is_attempted_once(earlier, country);
        assert(load_effects(codes).drop_last() =~= load_effects(earlier));
        assert(load_effects(codes).last() == Effect::LoadAttempted { country: codes.last() });
        if codes.contains(country) {
            let at = codes.index_of(country);
            if at < earlier.len() {
                assert(earlier[at] == country);
            }
            if codes.last() == country && earlier.contains(country) {
                let twice = earlier.index_of(country);
                assert(codes[twice] == codes[codes.len() - 1]);
            }
        } else {
            assert(codes[codes.len() - 1] != country);
            if earlier.contains(country) {
                assert(codes[earlier.index_of(country)] == country);
            }
        }
    }
}

} // verus!
