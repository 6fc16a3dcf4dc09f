//! The dispatcher proper: it owns the registry, the counter, the latency
//! histogram and the model, and serves the requests.

use vstd::prelude::*;
use dipstick::AtomicBucket;
use crate::country::uppercase_of;
use crate::engine::{answered_with, Score, SearchEngine, UserEvent};
use crate::error::{DispatchError, DispatchErrorView, LoadError, StatusCode};
use crate::counter::count_request;
use crate::journal::{
    lemma_counted_and_timed_exactly_once,
    load_effects,
    request_effects,
    times,
    Effect,
    Journal,
    Step,
};
use crate::latency::LatencyHistogram;
use crate::messages::{
    AvailableCountriesResponse,
    CountryInfo,
    IndexedProductsRequest,
    IndexedProductsResponse,
    IndicesRequest,
    IndicesResponse,
    KnnRequest,
    KnnResponse,
    Product,
};
use crate::registry::{empty_slots, normal_codes, texts, ShardRegistry};
use crate::registry_laws::lemma_unconfigured_country_has_no_shard;
use crate::response::{answer_view, conclude, concluded};
use crate::translate::{translate_events, translated_all};

verus! {

/// The dispatcher of searches over the shards of an engine `S`.
pub struct KnnController<S: SearchEngine> {
    registry: ShardRegistry<S>,
    metrics: AtomicBucket,
    latency_histo: LatencyHistogram,
    model: S::Model,
}

/// The names of the countries of a listing.
pub open spec fn names(countries: Seq<CountryInfo>) -> Seq<Seq<char>> {
    countries.map_values(|country: CountryInfo| country.name@)
}

/// Asks `shard` to search, once.
fn ask<S: SearchEngine>(
    shard: &S,
    events: &Vec<UserEvent>,
    index_id: i32,
    result_count: usize,
    model: &S::Model,
    journal: &mut Journal,
) -> (outcome: Result<Vec<(i64, Score)>, String>)
    ensures
        answered_with(shard, events@, index_id, result_count, model, outcome),
        final(journal)@ == old(journal)@.push(Effect::EngineInvoked),
{
    let outcome = shard.get_closest_items(events, index_id, result_count, model);
    journal.note(Ghost(Effect::EngineInvoked));
    outcome
}

impl<S: SearchEngine> KnnController<S> {
    /// The registry of shards.
    pub closed spec fn registry(&self) -> ShardRegistry<S> {
        self.registry
    }

    /// The bucket in which requests are counted.
    pub closed spec fn metrics(&self) -> AtomicBucket {
        self.metrics
    }

    /// The latency histogram, with the sink whose clock times it.
    pub closed spec fn latency(&self) -> LatencyHistogram {
        self.latency_histo
    }

    /// The model that every search is given.
    pub closed spec fn model(&self) -> S::Model {
        self.model
    }

    /// `answer` is the answer owed to `request`.
    ///
    /// Without a shard for the country the answer is that the shard is
    /// unavailable, and names the country as the request spelled it. With a
    /// shard, the shard was asked with the translated events, the index, the
    /// count and the model, and the answer is what it returned: its items as
    /// products, or its failure.
    pub open spec fn answers(
        &self,
        request: KnnRequest,
        answer: Result<KnnResponse, DispatchError>,
    ) -> bool {
        match self.registry().lookup(request.country@) {
            None => answer_view(answer) == Err::<Seq<Product>, DispatchErrorView>(
                DispatchErrorView::ShardUnavailable { country: request.country@ },
            ),
            Some(shard) => exists|outcome: Result<Vec<(i64, Score)>, String>|
                {
                    &&& #[trigger] answered_with(
                        &shard,
                        translated_all(request.user_events@),
                        request.index_id,
                        request.result_count as usize,
                        &self.model(),
                        outcome,
                    )
                    &&& answer_view(answer) == concluded(outcome)
                },
        }
    }

    /// A dispatcher for `countries`, with no shard loaded yet. Requests are
    /// counted in `metrics`, and their latency goes to `latency_histo`.
    pub fn new(
        countries: Vec<String>,
        metrics: AtomicBucket,
        latency_histo: LatencyHistogram,
        model: S::Model,
    ) -> (controller: Self)
        ensures
            controller.registry().wf(),
            controller.registry().codes() == normal_codes(texts(countries@)),
            controller.registry().shards() == empty_slots::<S>(
                controller.registry().codes().len(),
            ),
            controller.metrics() == metrics,
            controller.latency() == latency_histo,
            controller.model() == model,
    {
        KnnController {
            registry: ShardRegistry::configure(countries),
            metrics,
            latency_histo,
            model,
        }
    }

    /// Loads the shard of every configured country; see
    /// [`KnnController::load_noting`].
    pub fn load(
        &mut self,
        index_path: &str,
        extra_item_path: &str,
        models_path: Option<&str>,
    ) -> (result: Result<(), LoadError>)
        ensures
            final(self).registry().wf(),
            final(self).registry().reloaded_from(
                old(self).registry(),
                index_path,
                extra_item_path,
                models_path,
                result,
            ),
            final(self).metrics() == old(self).metrics(),
            final(self).latency() == old(self).latency(),
            final(self).model() == old(self).model(),
    {
        let mut journal = Journal::new();
        self.load_noting(index_path, extra_item_path, models_path, &mut journal)
    }

    /// Loads the shard of every configured country, and writes into `journal`
    /// what that does outside the dispatcher; see
    /// [`ShardRegistry::load_all_noting`].
    ///
    /// The engine is asked once for each configured country, with the
    /// country's code and the paths as they were given, and for nothing else.
    /// Nothing but the registry changes: no request is counted and no latency
    /// recorded.
    pub fn load_noting(
        &mut self,
        index_path: &str,
        extra_item_path: &str,
        models_path: Option<&str>,
        journal: &mut Journal,
    ) -> (result: Result<(), LoadError>)
        ensures
            final(self).registry().wf(),
            final(self).registry().reloaded_from(
                old(self).registry(),
                index_path,
                extra_item_path,
                models_path,
                result,
            ),
            final(self).metrics() == old(self).metrics(),
            final(self).latency() == old(self).latency(),
            final(self).model() == old(self).model(),
            final(journal)@ == old(journal)@ + load_effects(old(self).registry().codes()),
    {
        self.registry.load_all_noting(index_path, extra_item_path, models_path, journal)
    }

    /// Serves a search request; see [`KnnController::serve`].
    pub fn search(&self, request: &KnnRequest) -> (answer: Result<KnnResponse, DispatchError>)
        ensures
            self.answers(*request, answer),
    {
        let mut journal = Journal::new();
        self.serve(request, &mut journal)
    }

    /// Serves a search request, and writes into `journal` what that does
    /// outside the dispatcher.
    ///
    /// The request is counted and the timer started before anything else.
    /// The shard is asked only if there is one. The latency is recorded on
    /// every way out, after the answer is made.
    pub fn serve(&self, request: &KnnRequest, journal: &mut Journal) -> (answer: Result<
        KnnResponse,
        DispatchError,
    >)
        ensures
            self.answers(*request, answer),
            exists|started: u64, stopped: u64|
                final(journal)@ == old(journal)@ + #[trigger] request_effects(
                    self.registry().lookup(request.country@) is Some,
                    started,
                    stopped,
                ),
    {
        count_request(&self.metrics, journal);
        let handle = self.latency_histo.record(journal);
        let answer = match self.registry.get(request.country.as_str()) {
            Some(shard) => {
                let events = translate_events(&request.user_events);
                let outcome = ask(
                    shard,
                    &events,
                    request.index_id,
                    request.result_count as usize,
                    &self.model,
                    journal,
                );
                let answer = conclude(outcome);
                assert(self.answers(*request, answer)) by {
                    assert(answered_with(
                        shard,
                        translated_all(request.user_events@),
                        request.index_id,
                        request.result_count as usize,
                        &self.model(),
                        outcome,
                    ));
                }
                answer
            },
            None => Err(DispatchError::ShardUnavailable { country: request.country.clone() }),
        };
        let ghost started = handle.started_at();
        let ghost before_stop = journal@;
        handle.stop(journal);
        proof {
            let stopped = journal@.last()->end;
            assert(journal@.last() == Effect::LatencyRecorded { start: started, end: stopped });
            assert(journal@ =~= before_stop.push(journal@.last()));
            assert(journal@ =~= old(journal)@ + request_effects(
                self.registry().lookup(request.country@) is Some,
                started,
                stopped,
            ));
        }
        answer
    }

    /// Searching several indices at once is not built yet.
    pub fn multi_search(&self, _request: &KnnRequest) -> (answer: Result<
        KnnResponse,
        DispatchError,
    >)
        ensures
            answer == Err::<KnnResponse, DispatchError>(DispatchError::Unimplemented),
    {
        Err(DispatchError::Unimplemented)
    }

    /// The countries that can be searched at present: those whose shard is
    /// loaded, which may be fewer than those configured.
    pub fn get_available_countries(&self) -> (answer: Result<
        AvailableCountriesResponse,
        DispatchError,
    >)
        ensures
            answer is Ok,
            names(answer->Ok_0.countries@) == self.registry().loaded(),
    {
        let listed = self.registry.list_countries();
        let mut countries: Vec<CountryInfo> = Vec::new();
        let mut i: usize = 0;
        while i < listed.len()
            invariant
                i <= listed.len(),
                names(countries@) == texts(listed@).take(i as int),
            decreases listed.len() - i,
        {
            let ghost before = names(countries@);
            countries.push(CountryInfo { name: listed[i].clone() });
            assert(names(countries@) =~= before.push(listed[i as int]@));
            i = i + 1;
            assert(names(countries@) =~= texts(listed@).take(i as int));
        }
        assert(texts(listed@).take(i as int) =~= texts(listed@));
        Ok(AvailableCountriesResponse { countries })
    }

    /// Listing the indices of a country is not built yet.
    pub fn get_indices_for_country(&self, _request: &IndicesRequest) -> (answer: Result<
        IndicesResponse,
        DispatchError,
    >)
        ensures
            answer == Err::<IndicesResponse, DispatchError>(DispatchError::Unimplemented),
    {
        Err(DispatchError::Unimplemented)
    }

    /// Listing the products of an index is not built yet.
    pub fn get_indexed_products(&self, _request: &IndexedProductsRequest) -> (answer: Result<
        IndexedProductsResponse,
        DispatchError,
    >)
        ensures
            answer == Err::<IndexedProductsResponse, DispatchError>(DispatchError::Unimplemented),
    {
        Err(DispatchError::Unimplemented)
    }
}

/// A request for a country that was never configured is answered that the
/// shard is unavailable, whatever has been loaded since, and the engine is
/// not asked in serving it.
pub proof fn lemma_unknown_country_is_unavailable<S: SearchEngine>(
    controller: KnnController<S>,
    request: KnnRequest,
    answer: Result<KnnResponse, DispatchError>,
)
    requires
        controller.answers(request, answer),
    ensures
        !controller.registry().configured().contains(uppercase_of(request.country@)) ==> {
            &&& controller.registry().lookup(request.country@) is None
            &&& answer_view(answer) == Err::<Seq<Product>, DispatchErrorView>(
                DispatchErrorView::ShardUnavailable { country: request.country@ },
            )
            &&& answer_view(answer)->Err_0.code() == StatusCode::NotFound
            &&& forall|started: u64, stopped: u64|
                times(
                    #[trigger] request_effects(
                        controller.registry().lookup(request.country@) is Some,
                        started,
                        stopped,
                    ),
                    Step::Invoke,
                ) == 0
        },
{
    lemma_unconfigured_country_has_no_shard(controller.registry(), request.country@);
    assert forall|started: u64, stopped: u64|
        times(#[trigger] request_effects(false, started, stopped), Step::Invoke) == 0 by {
        lemma_counted_and_timed_exactly_once(false, started, stopped);
    }
}

/// Where the shard of the request's country can only return the items
/// `items`, the response holds exactly these items, in this order, each with
/// its identifier and score and with zero in both fields kept for later.
pub proof fn lemma_response_keeps_the_order_of_the_shard<S: SearchEngine>(
    controller: KnnController<S>,
    request: KnnRequest,
    answer: Result<KnnResponse, DispatchError>,
    items: Seq<(i64, Score)>,
)
    requires
        controller.answers(request, answer),
        controller.registry().lookup(request.country@) is Some,
        forall|outcome: Result<Vec<(i64, Score)>, String>| #[trigger]
            answered_with(
                &controller.registry().lookup(request.country@)->Some_0,
                translated_all(request.user_events@),
                request.index_id,
                request.result_count as usize,
                &controller.model(),
                outcome,
            ) ==> outcome is Ok && outcome->Ok_0@ == items,
    ensures
        answer is Ok,
        answer->Ok_0.products@.len() == items.len(),
        forall|i: int|
            0 <= i < items.len() ==> (#[trigger] answer->Ok_0.products@[i]) == (Product {
                product_id: items[i].0,
                score: items[i].1,
                dotproduct: Score { bits: 0 },
                squared_l2_norm: Score { bits: 0 },
            }),
{
}

/// Whatever the shard returned, both fields kept for later are zero in
/// every product of every response.
pub proof fn lemma_reserved_fields_are_zero<S: SearchEngine>(
    controller: KnnController<S>,
    request: KnnRequest,
    answer: Result<KnnResponse, DispatchError>,
)
    requires
        controller.answers(request, answer),
        answer is Ok,
    ensures
        forall|i: int|
            0 <= i < answer->Ok_0.products@.len() ==> {
                &&& (#[trigger] answer->Ok_0.products@[i]).dotproduct.bits == 0
                &&& answer->Ok_0.products@[i].squared_l2_norm.bits == 0
            },
{
}

} // verus!
