use knn_service::engine::{Score, SearchEngine, UserEvent};
use knn_service::error::{LoadError, LoadFailure};
use knn_service::journal::Journal;
use knn_service::registry::ShardRegistry;

/// A shard that remembers what it was loaded from. It cannot be loaded for a
/// country whose code occurs in the index path.
#[derive(Debug, PartialEq)]
struct Plaque {
    country: String,
    index_path: String,
    extra_item_path: String,
    models_path: Option<String>,
}

impl SearchEngine for Plaque {
    type Model = ();

    fn load(
        country: &str,
        index_path: &str,
        extra_item_path: &str,
        models_path: Option<&str>,
    ) -> Result<Self, String> {
        if index_path.contains(country) {
            Err(format!("{} is broken", country))
        } else {
            Ok(Plaque {
                country: country.to_string(),
                index_path: index_path.to_string(),
                extra_item_path: extra_item_path.to_string(),
                models_path: models_path.map(|path| path.to_string()),
            })
        }
    }

    fn get_closest_items(
        &self,
        _events: &Vec<UserEvent>,
        _index_id: i32,
        _result_count: usize,
        _model: &(),
    ) -> Result<Vec<(i64, Score)>, String> {
        Ok(Vec::new())
    }
}

fn strings(texts: &[&str]) -> Vec<String> {
    texts.iter().map(|text| text.to_string()).collect()
}

fn codes<S>(registry: &ShardRegistry<S>) -> Vec<String> {
    (0..registry.len()).map(|slot| registry.code(slot).clone()).collect()
}

#[test]
fn configure_makes_one_empty_slot_for_each_country() {
    let registry: ShardRegistry<u8> = ShardRegistry::configure(strings(&["us", "fr", "de"]));
    assert_eq!(registry.len(), 3);
    assert_eq!(codes(&registry), strings(&["US", "FR", "DE"]));
    assert!(registry.list_countries().is_empty());
    for country in ["us", "fr", "de", "US"] {
        assert_eq!(registry.get(country), None);
    }
}

#[test]
fn configure_keeps_the_first_of_several_spellings() {
    let registry: ShardRegistry<u8> =
        ShardRegistry::configure(strings(&["fr", "us", "FR", "Us", "uS", "it", "Fr"]));
    assert_eq!(codes(&registry), strings(&["FR", "US", "IT"]));
}

#[test]
fn configure_with_no_country_makes_no_slot() {
    let registry: ShardRegistry<u8> = ShardRegistry::configure(Vec::new());
    assert_eq!(registry.len(), 0);
    assert_eq!(registry.get("us"), None);
    assert!(registry.list_countries().is_empty());
}

#[test]
fn a_recorded_shard_is_found_under_every_spelling() {
    let mut registry: ShardRegistry<u8> = ShardRegistry::configure(strings(&["us", "fr"]));
    assert_eq!(registry.record_load(1, Ok(42)), None);
    for spelling in ["fr", "Fr", "fR", "FR"] {
        assert_eq!(registry.get(spelling), Some(&42));
    }
    assert_eq!(registry.get("us"), None);
    assert_eq!(registry.get("f"), None);
    assert_eq!(registry.get("fra"), None);
    assert_eq!(registry.get(""), None);
    assert_eq!(registry.list_countries(), strings(&["FR"]));
}

#[test]
fn a_recorded_failure_names_the_country_and_leaves_the_slot() {
    let mut registry: ShardRegistry<u8> = ShardRegistry::configure(strings(&["us", "fr"]));
    assert_eq!(
        registry.record_load(0, Err("torn file".to_string())),
        Some(LoadFailure { country: "US".to_string(), detail: "torn file".to_string() })
    );
    assert_eq!(registry.get("us"), None);
    assert_eq!(registry.record_load(0, Ok(7)), None);
    assert_eq!(
        registry.record_load(0, Err("torn again".to_string())),
        Some(LoadFailure { country: "US".to_string(), detail: "torn again".to_string() })
    );
    assert_eq!(registry.get("us"), Some(&7));
    assert_eq!(registry.len(), 2);
}

#[test]
fn a_recorded_shard_replaces_the_one_before() {
    let mut registry: ShardRegistry<u8> = ShardRegistry::configure(strings(&["us"]));
    assert_eq!(registry.record_load(0, Ok(1)), None);
    assert_eq!(registry.record_load(0, Ok(2)), None);
    assert_eq!(registry.get("us"), Some(&2));
    assert_eq!(registry.list_countries(), strings(&["US"]));
}

#[test]
fn list_countries_follows_the_order_of_the_slots() {
    let mut registry: ShardRegistry<u8> =
        ShardRegistry::configure(strings(&["us", "fr", "de", "it"]));
    assert_eq!(registry.record_load(3, Ok(3)), None);
    assert_eq!(registry.record_load(0, Ok(0)), None);
    assert_eq!(registry.record_load(2, Ok(2)), None);
    assert_eq!(registry.list_countries(), strings(&["US", "DE", "IT"]));
}

#[test]
fn load_all_hands_the_code_and_the_paths_to_the_engine() {
    let mut registry: ShardRegistry<Plaque> = ShardRegistry::configure(strings(&["us", "fr"]));
    assert_eq!(registry.load_all("indices", "extras", Some("models")), Ok(()));
    assert_eq!(
        registry.get("fr"),
        Some(&Plaque {
            country: "FR".to_string(),
            index_path: "indices".to_string(),
            extra_item_path: "extras".to_string(),
            models_path: Some("models".to_string()),
        })
    );
    assert_eq!(registry.load_all("elsewhere", "extras", None), Ok(()));
    assert_eq!(
        registry.get("US"),
        Some(&Plaque {
            country: "US".to_string(),
            index_path: "elsewhere".to_string(),
            extra_item_path: "extras".to_string(),
            models_path: None,
        })
    );
}

#[test]
fn load_all_goes_on_past_a_country_that_fails() {
    let mut registry: ShardRegistry<Plaque> =
        ShardRegistry::configure(strings(&["us", "fr", "de"]));
    assert_eq!(
        registry.load_all("all but FR", "extras", None),
        Err(LoadError {
            failures: vec![LoadFailure {
                country: "FR".to_string(),
                detail: "FR is broken".to_string(),
            }],
        })
    );
    assert_eq!(registry.list_countries(), strings(&["US", "DE"]));
    assert_eq!(registry.list_countries().len(), registry.len() - 1);
    assert_eq!(registry.get("fr"), None);
}

#[test]
fn load_all_reports_every_failure() {
    let mut registry: ShardRegistry<Plaque> =
        ShardRegistry::configure(strings(&["us", "fr", "de"]));
    let error = registry.load_all("DE and US", "extras", None).expect_err("two fail");
    assert_eq!(
        error.failures,
        vec![
            LoadFailure { country: "US".to_string(), detail: "US is broken".to_string() },
            LoadFailure { country: "DE".to_string(), detail: "DE is broken".to_string() },
        ]
    );
    assert_eq!(registry.list_countries(), strings(&["FR"]));
}

#[test]
fn load_all_never_adds_a_country() {
    let mut registry: ShardRegistry<Plaque> = ShardRegistry::configure(strings(&["us"]));
    assert_eq!(registry.load_all("indices", "extras", None), Ok(()));
    assert_eq!(registry.len(), 1);
    assert_eq!(registry.list_countries(), strings(&["US"]));
    assert_eq!(registry.get("fr"), None);
}

#[test]
fn load_all_noting_loads_as_load_all_does() {
    let mut noting: ShardRegistry<Plaque> = ShardRegistry::configure(strings(&["us", "fr", "de"]));
    let mut plain: ShardRegistry<Plaque> = ShardRegistry::configure(strings(&["us", "fr", "de"]));
    let mut journal = Journal::new();
    assert_eq!(
        noting.load_all_noting("all but DE", "extras", Some("models"), &mut journal),
        plain.load_all("all but DE", "extras", Some("models"))
    );
    assert_eq!(noting.list_countries(), strings(&["US", "FR"]));
    for country in ["us", "fr", "de"] {
        assert_eq!(noting.get(country), plain.get(country));
    }
}
