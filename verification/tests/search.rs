use dipstick::{AtomicBucket, StatsMapScope};
use knn_service::controller::KnnController;
use knn_service::engine::{Score, SearchEngine, UserEvent};
use knn_service::error::{DispatchError, LoadError, LoadFailure, StatusCode};
use knn_service::journal::Journal;
use knn_service::latency::LatencyHistogram;
use knn_service::messages::{
    EventMessage, IndexedProductsRequest, IndicesRequest, KnnRequest, Product,
};
use metrics_runtime::{Measurement, Receiver};
use std::sync::atomic::{AtomicUsize, Ordering};
use std::sync::Arc;

/// A receiver whose clock has begun to tick. A histogram made before the
/// first tick would drop, at that tick, what it was given before it.
fn ticking_receiver() -> Receiver {
    let receiver = Receiver::builder().build().expect("a receiver");
    let clock = quanta::Clock::new();
    let began = std::time::Instant::now();
    while clock.recent() == 0 {
        assert!(began.elapsed().as_secs() < 15, "the clock does not tick");
        std::hint::spin_loop();
    }
    receiver
}

/// The latency histogram of a dispatcher, registered with a sink of `receiver`.
fn request_latency(receiver: &Receiver) -> LatencyHistogram {
    let mut sink = receiver.sink();
    let histogram = sink.histogram("request.latency");
    LatencyHistogram::new(sink, histogram)
}

/// How often the scripted engine was asked to load a shard.
static LOADS: AtomicUsize = AtomicUsize::new(0);

/// The model of the scripted engine: what it adds to every score, and a
/// count of the searches made with it.
struct Script {
    bonus: u32,
    searches: AtomicUsize,
}

/// A scripted shard. It cannot be loaded for the country named in the index
/// path after the word `without`. Asked for index 99 it returns a fixed list
/// that is neither sorted nor free of repeats; asked for a negative index it
/// fails; otherwise it returns one item that tells its country, then one item
/// for each event, with the event's timestamp as the bits of the score.
struct ScriptedShard {
    country: String,
    extra_item_path: String,
}

fn score(value: f32) -> Score {
    Score { bits: value.to_bits() }
}

fn fixed_items() -> Vec<(i64, Score)> {
    vec![(5, score(0.5)), (3, score(0.9)), (8, score(0.1)), (3, score(0.9)), (1, score(-2.0))]
}

impl SearchEngine for ScriptedShard {
    type Model = Arc<Script>;

    fn load(
        country: &str,
        index_path: &str,
        extra_item_path: &str,
        models_path: Option<&str>,
    ) -> Result<Self, String> {
        LOADS.fetch_add(1, Ordering::SeqCst);
        if index_path == format!("without {}", country) {
            Err(format!("no index for {}", country))
        } else if models_path == Some("missing") {
            Err(format!("no models for {}", country))
        } else {
            Ok(ScriptedShard {
                country: country.to_string(),
                extra_item_path: extra_item_path.to_string(),
            })
        }
    }

    fn get_closest_items(
        &self,
        events: &Vec<UserEvent>,
        index_id: i32,
        result_count: usize,
        model: &Arc<Script>,
    ) -> Result<Vec<(i64, Score)>, String> {
        model.searches.fetch_add(1, Ordering::SeqCst);
        if index_id < 0 {
            return Err(format!("{}: no index {}", self.country, index_id));
        }
        if index_id == 99 {
            return Ok(fixed_items());
        }
        let mut items = vec![(
            self.country.bytes().map(i64::from).sum(),
            Score { bits: self.extra_item_path.len() as u32 },
        )];
        for event in events.iter().take(result_count) {
            items.push((event.label, Score { bits: event.timestamp as u32 + model.bonus }));
        }
        Ok(items)
    }
}

struct Fixture {
    controller: KnnController<ScriptedShard>,
    metrics: AtomicBucket,
    receiver: Receiver,
    script: Arc<Script>,
}

fn fixture(countries: &[&str]) -> Fixture {
    let metrics = AtomicBucket::new();
    let receiver = ticking_receiver();
    let script = Arc::new(Script { bonus: 0, searches: AtomicUsize::new(0) });
    let controller = KnnController::new(
        countries.iter().map(|country| country.to_string()).collect(),
        metrics.clone(),
        request_latency(&receiver),
        script.clone(),
    );
    Fixture { controller, metrics, receiver, script }
}

fn loaded(countries: &[&str]) -> Fixture {
    let mut fixture = fixture(countries);
    assert_eq!(fixture.controller.load("indices", "extra", None), Ok(()));
    fixture
}

fn request(country: &str, index_id: i32) -> KnnRequest {
    KnnRequest {
        country: country.to_string(),
        user_events: vec![
            EventMessage { partner_id: 1, product_id: 10, timestamp: 7, event_type: 0 },
            EventMessage { partner_id: 1, product_id: 11, timestamp: 9, event_type: 2 },
        ],
        index_id,
        result_count: 5,
    }
}

fn requests_counted(metrics: &AtomicBucket) -> isize {
    let stats = StatsMapScope::default();
    metrics.flush_to(&stats).expect("a flush");
    stats.into_map().get("request.count").copied().unwrap_or(0)
}

fn latencies_recorded(receiver: &Receiver) -> Vec<u64> {
    let mut recorded = Vec::new();
    for (key, measurement) in receiver.controller().snapshot().into_measurements() {
        if key.name() == "request.latency" {
            if let Measurement::Histogram(values) = measurement {
                recorded.extend(values.decompress());
            }
        }
    }
    recorded
}

fn names(fixture: &Fixture) -> Vec<String> {
    let listing = fixture.controller.get_available_countries().expect("a listing");
    listing.countries.into_iter().map(|country| country.name).collect()
}

fn plain(product_id: i64, bits: u32) -> Product {
    Product {
        product_id,
        score: Score { bits },
        dotproduct: Score { bits: 0 },
        squared_l2_norm: Score { bits: 0 },
    }
}

#[test]
fn search_returns_one_product_for_each_item_of_the_shard() {
    let fixture = loaded(&["us", "fr"]);
    let response = fixture.controller.search(&request("us", 3)).expect("a response");
    assert_eq!(response.products, vec![plain(168, 5), plain(10, 7), plain(11, 9)]);
}

#[test]
fn search_keeps_the_order_of_the_shard() {
    let fixture = loaded(&["us"]);
    let response = fixture.controller.search(&request("us", 99)).expect("a response");
    let found: Vec<(i64, f32)> = response
        .products
        .iter()
        .map(|product| (product.product_id, f32::from_bits(product.score.bits)))
        .collect();
    assert_eq!(found, vec![(5, 0.5), (3, 0.9), (8, 0.1), (3, 0.9), (1, -2.0)]);
}

#[test]
fn reserved_fields_are_zero_in_every_product() {
    let fixture = loaded(&["us"]);
    for index_id in [3, 99] {
        let response = fixture.controller.search(&request("us", index_id)).expect("a response");
        assert!(!response.products.is_empty());
        for product in &response.products {
            assert_eq!(product.dotproduct, Score::zero());
            assert_eq!(product.squared_l2_norm, Score::zero());
            assert_eq!(f32::from_bits(product.dotproduct.bits), 0.0);
            assert_eq!(f32::from_bits(product.squared_l2_norm.bits), 0.0);
        }
    }
}

#[test]
fn every_spelling_of_a_country_finds_the_same_shard() {
    let fixture = loaded(&["us", "fr"]);
    let expected = vec![plain(168, 5), plain(10, 7), plain(11, 9)];
    for spelling in ["us", "Us", "uS", "US"] {
        let response = fixture.controller.search(&request(spelling, 3)).expect("a response");
        assert_eq!(response.products, expected);
    }
    let french = fixture.controller.search(&request("fR", 3)).expect("a response");
    assert_eq!(french.products[0], plain(152, 5));
}

#[test]
fn a_country_configured_in_lower_case_is_found_in_upper_case() {
    let fixture = loaded(&["de"]);
    assert_eq!(names(&fixture), vec!["DE".to_string()]);
    assert!(fixture.controller.search(&request("DE", 3)).is_ok());
    assert!(fixture.controller.search(&request("de", 3)).is_ok());
}

#[test]
fn search_for_a_country_never_configured_is_not_found_and_asks_no_shard() {
    let fixture = loaded(&["us", "fr"]);
    let error = fixture.controller.search(&request("de", 3)).expect_err("no shard for de");
    assert_eq!(error, DispatchError::ShardUnavailable { country: "de".to_string() });
    assert_eq!(error.code(), StatusCode::NotFound);
    assert_eq!(error.message(), "country de not available");
    assert_eq!(fixture.script.searches.load(Ordering::SeqCst), 0);
}

#[test]
fn search_for_a_configured_country_that_is_not_loaded_is_not_found() {
    let fixture = fixture(&["us"]);
    let error = fixture.controller.search(&request("Us", 3)).expect_err("nothing is loaded");
    assert_eq!(error, DispatchError::ShardUnavailable { country: "Us".to_string() });
    assert_eq!(error.message(), "country Us not available");
    assert_eq!(fixture.script.searches.load(Ordering::SeqCst), 0);
}

#[test]
fn a_failure_of_the_shard_is_internal_and_carries_its_reason() {
    let fixture = loaded(&["us"]);
    let error = fixture.controller.search(&request("us", -4)).expect_err("the shard fails");
    assert_eq!(error, DispatchError::EngineFailure { detail: "US: no index -4".to_string() });
    assert_eq!(error.code(), StatusCode::Internal);
    assert_eq!(error.message(), "US: no index -4");
    assert_eq!(fixture.script.searches.load(Ordering::SeqCst), 1);
}

#[test]
fn every_request_is_counted_and_timed_once_whatever_its_outcome() {
    let mut fixture = fixture(&["us", "fr"]);
    assert!(fixture.controller.load("without FR", "extra", None).is_err());
    assert!(fixture.controller.search(&request("us", 3)).is_ok());
    assert!(fixture.controller.search(&request("fr", 3)).is_err());
    assert!(fixture.controller.search(&request("us", -1)).is_err());
    assert!(fixture.controller.search(&request("de", 3)).is_err());
    assert!(fixture.controller.search(&request("US", 99)).is_ok());
    assert_eq!(latencies_recorded(&fixture.receiver).len(), 5);
    assert_eq!(requests_counted(&fixture.metrics), 5);
    assert_eq!(fixture.script.searches.load(Ordering::SeqCst), 3);
}

#[test]
fn a_single_request_leaves_one_mark_and_one_latency() {
    for (country, index_id) in [("us", 3), ("us", -1), ("de", 3)] {
        let fixture = loaded(&["us"]);
        let _ = fixture.controller.search(&request(country, index_id));
        assert_eq!(requests_counted(&fixture.metrics), 1);
        let latencies = latencies_recorded(&fixture.receiver);
        assert_eq!(latencies.len(), 1);
        assert!(latencies[0] < 60_000_000_000);
    }
}

#[test]
fn the_other_endpoints_are_neither_counted_nor_timed() {
    let fixture = loaded(&["us"]);
    assert!(fixture.controller.multi_search(&request("us", 3)).is_err());
    assert!(fixture.controller.get_available_countries().is_ok());
    assert_eq!(requests_counted(&fixture.metrics), 0);
    assert_eq!(latencies_recorded(&fixture.receiver).len(), 0);
}

#[test]
fn serve_answers_as_search_does() {
    let fixture = loaded(&["us"]);
    let mut journal = Journal::new();
    let served = fixture.controller.serve(&request("us", 3), &mut journal);
    assert_eq!(served, fixture.controller.search(&request("us", 3)));
    let refused = fixture.controller.serve(&request("xx", 3), &mut journal);
    assert_eq!(refused, Err(DispatchError::ShardUnavailable { country: "xx".to_string() }));
    assert_eq!(requests_counted(&fixture.metrics), 3);
}

#[test]
fn one_failing_country_leaves_the_others_loaded() {
    let mut fixture = fixture(&["us", "fr", "de", "it"]);
    let result = fixture.controller.load("without DE", "extra", None);
    assert_eq!(
        result,
        Err(LoadError {
            failures: vec![LoadFailure {
                country: "DE".to_string(),
                detail: "no index for DE".to_string(),
            }],
        })
    );
    assert_eq!(names(&fixture), vec!["US".to_string(), "FR".to_string(), "IT".to_string()]);
    assert!(fixture.controller.search(&request("it", 3)).is_ok());
    assert_eq!(
        fixture.controller.search(&request("de", 3)),
        Err(DispatchError::ShardUnavailable { country: "de".to_string() })
    );
}

#[test]
fn every_failing_country_is_reported_in_the_order_of_configuration() {
    let mut fixture = fixture(&["us", "fr", "de"]);
    let result = fixture.controller.load("indices", "extra", Some("missing"));
    let failed: Vec<(String, String)> = result
        .expect_err("no country loads")
        .failures
        .into_iter()
        .map(|failure| (failure.country, failure.detail))
        .collect();
    assert_eq!(
        failed,
        vec![
            ("US".to_string(), "no models for US".to_string()),
            ("FR".to_string(), "no models for FR".to_string()),
            ("DE".to_string(), "no models for DE".to_string()),
        ]
    );
    assert!(names(&fixture).is_empty());
}

#[test]
fn a_load_with_no_country_configured_succeeds() {
    let mut fixture = fixture(&[]);
    assert_eq!(fixture.controller.load("indices", "extra", None), Ok(()));
    assert!(names(&fixture).is_empty());
}

#[test]
fn a_reload_that_fails_keeps_the_earlier_shard() {
    let mut fixture = fixture(&["us", "fr"]);
    assert_eq!(fixture.controller.load("indices", "old", None), Ok(()));
    assert!(fixture.controller.load("without US", "newer", None).is_err());
    assert_eq!(names(&fixture), vec!["US".to_string(), "FR".to_string()]);
    let kept = fixture.controller.search(&request("us", 3)).expect("the earlier shard");
    assert_eq!(kept.products[0], plain(168, 3));
    let replaced = fixture.controller.search(&request("fr", 3)).expect("the new shard");
    assert_eq!(replaced.products[0], plain(152, 5));
}

#[test]
fn a_reload_replaces_a_shard_whole() {
    let mut fixture = fixture(&["us"]);
    assert_eq!(fixture.controller.load("indices", "a", None), Ok(()));
    assert_eq!(fixture.controller.load("indices", "longer", None), Ok(()));
    let response = fixture.controller.search(&request("us", 3)).expect("a response");
    assert_eq!(response.products[0], plain(168, 6));
    assert_eq!(names(&fixture), vec!["US".to_string()]);
}

#[test]
fn available_countries_are_those_loaded_not_those_configured() {
    let mut fixture = fixture(&["us", "fr"]);
    assert!(names(&fixture).is_empty());
    assert!(fixture.controller.load("without US", "extra", None).is_err());
    assert_eq!(names(&fixture), vec!["FR".to_string()]);
    assert_eq!(fixture.controller.load("indices", "extra", None), Ok(()));
    assert_eq!(names(&fixture), vec!["US".to_string(), "FR".to_string()]);
}

#[test]
fn a_country_given_twice_is_configured_once() {
    let fixture = loaded(&["us", "FR", "Us", "fr", "US"]);
    assert_eq!(names(&fixture), vec!["US".to_string(), "FR".to_string()]);
}

#[test]
fn a_negative_timestamp_reaches_the_shard_as_zero() {
    let fixture = loaded(&["us"]);
    let mut asked = request("us", 3);
    asked.user_events = vec![
        EventMessage { partner_id: 4, product_id: 20, timestamp: -1, event_type: 1 },
        EventMessage { partner_id: 4, product_id: 21, timestamp: i64::MIN, event_type: 1 },
        EventMessage { partner_id: 4, product_id: 22, timestamp: 12, event_type: 1 },
    ];
    let response = fixture.controller.search(&asked).expect("a response");
    assert_eq!(response.products, vec![plain(168, 5), plain(20, 0), plain(21, 0), plain(22, 12)]);
}

#[test]
fn the_count_and_the_model_reach_the_shard() {
    let metrics = AtomicBucket::new();
    let receiver = ticking_receiver();
    let script = Arc::new(Script { bonus: 100, searches: AtomicUsize::new(0) });
    let mut controller: KnnController<ScriptedShard> =
        KnnController::new(vec!["us".to_string()], metrics, request_latency(&receiver), script);
    assert_eq!(controller.load("indices", "extra", None), Ok(()));
    let mut asked = request("us", 3);
    asked.result_count = 1;
    let response = controller.search(&asked).expect("a response");
    assert_eq!(response.products, vec![plain(168, 5), plain(10, 107)]);
    asked.result_count = 0;
    let response = controller.search(&asked).expect("a response");
    assert_eq!(response.products, vec![plain(168, 5)]);
}

#[test]
fn multi_search_is_not_built() {
    let fixture = loaded(&["us"]);
    let error = fixture.controller.multi_search(&request("us", 3)).expect_err("not built");
    assert_eq!(error, DispatchError::Unimplemented);
    assert_eq!(error.code(), StatusCode::Unimplemented);
    assert_eq!(error.message(), "");
    assert_eq!(fixture.script.searches.load(Ordering::SeqCst), 0);
}

#[test]
fn listing_indices_is_not_built() {
    let fixture = loaded(&["us"]);
    let asked = IndicesRequest { country: "us".to_string() };
    assert_eq!(
        fixture.controller.get_indices_for_country(&asked),
        Err(DispatchError::Unimplemented)
    );
}

#[test]
fn listing_indexed_products_is_not_built() {
    let fixture = loaded(&["us"]);
    let asked = IndexedProductsRequest { country: "us".to_string(), index_id: 3 };
    assert_eq!(
        fixture.controller.get_indexed_products(&asked),
        Err(DispatchError::Unimplemented)
    );
}

fn shared_between_threads<T: Send + Sync>(_shared: &T) {}

#[test]
fn a_controller_can_be_shared_between_threads() {
    let fixture = loaded(&["us"]);
    shared_between_threads(&fixture.controller);
    let first = &fixture.controller;
    let second = &fixture.controller;
    assert!(first.search(&request("us", 3)).is_ok());
    assert!(second.search(&request("US", 3)).is_ok());
    assert_eq!(requests_counted(&fixture.metrics), 2);
}

#[test]
fn a_load_asks_the_engine_once_for_each_country() {
    let mut fixture = fixture(&["us", "fr", "de", "US", "Fr"]);
    assert_eq!(LOADS.load(Ordering::SeqCst), 0);
    assert_eq!(fixture.controller.load("indices", "extra", None), Ok(()));
    assert_eq!(LOADS.load(Ordering::SeqCst), 3);
}

#[test]
fn a_load_does_not_try_a_failing_country_again() {
    let mut fixture = fixture(&["us", "fr", "de"]);
    assert!(fixture.controller.load("without FR", "extra", None).is_err());
    assert_eq!(LOADS.load(Ordering::SeqCst), 3);
    assert!(fixture.controller.load("indices", "extra", Some("missing")).is_err());
    assert_eq!(LOADS.load(Ordering::SeqCst), 6);
}

#[test]
fn load_noting_loads_as_load_does() {
    let mut fixture = fixture(&["us", "fr"]);
    let mut journal = Journal::new();
    let result = fixture.controller.load_noting("without US", "extra", None, &mut journal);
    assert_eq!(
        result,
        Err(LoadError {
            failures: vec![LoadFailure {
                country: "US".to_string(),
                detail: "no index for US".to_string(),
            }],
        })
    );
    assert_eq!(names(&fixture), vec!["FR".to_string()]);
    assert_eq!(LOADS.load(Ordering::SeqCst), 2);
    assert_eq!(requests_counted(&fixture.metrics), 0);
    assert!(latencies_recorded(&fixture.receiver).is_empty());
}
