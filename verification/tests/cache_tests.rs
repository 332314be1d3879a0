use enso_build::cache::artifact::ExtractedArtifact;
use enso_build::cache::artifact::Key;
use enso_build::cache::artifact::Storable;
use enso_build::cache::Cache;
use enso_build::cache::Completion;
use enso_build::cache::Step;
use enso_build::error::Failure;
use enso_build::source::RepoContext;

fn key(id: u64) -> Key {
    Key {
        repository: RepoContext { owner: "enso-org".to_string(), name: "enso".to_string() },
        artifact_id: id,
    }
}

#[test]
fn concurrent_requests_generate_once() {
    let mut cache = Cache::new("cache");
    let steps: Vec<Step> = (0..5).map(|_| cache.request(&key(1), false)).collect();
    assert_eq!(steps, vec![Step::Generate, Step::Await, Step::Await, Step::Await, Step::Await]);
    assert_eq!(steps.iter().filter(|step| **step == Step::Generate).count(), 1);
    assert!(cache.is_in_flight(&key(1)));
    assert!(!cache.is_complete(&key(1)));
    // Another key has a generation of its own.
    assert_eq!(cache.request(&key(2), false), Step::Generate);
}

#[test]
fn all_observers_adapt_the_same_entry() {
    let mut cache = Cache::new("cache");
    let storable = ExtractedArtifact { key: key(7) };
    assert_eq!(cache.request(storable.key(), false), Step::Generate);
    assert_eq!(cache.request(storable.key(), false), Step::Await);
    let location = cache.entry_path(storable.key());
    assert_eq!(location, "cache/enso-org-enso-7");
    assert!(matches!(cache.complete(storable.key(), Ok(())), Completion::Persist(())));
    let first = storable.adapt(cache.entry_path(storable.key()), ());
    let second = storable.adapt(cache.entry_path(storable.key()), ());
    assert_eq!(first, second);
    assert_eq!(first, "cache/enso-org-enso-7");
}

#[test]
fn second_request_after_success_generates_nothing() {
    let mut cache = Cache::new("cache");
    assert_eq!(cache.request(&key(1), false), Step::Generate);
    assert!(matches!(cache.complete(&key(1), Ok(5u8)), Completion::Persist(5)));
    assert!(!cache.is_in_flight(&key(1)));
    assert!(cache.is_complete(&key(1)));
    assert_eq!(cache.request(&key(1), true), Step::Adapt);
    assert_eq!(cache.request(&key(1), false), Step::Adapt);
    assert!(!cache.is_in_flight(&key(1)));
}

#[test]
fn stored_entries_are_adapted() {
    let mut cache = Cache::new("cache");
    assert_eq!(cache.request(&key(3), true), Step::Adapt);
    assert!(!cache.is_in_flight(&key(3)));
    assert_eq!(cache.root(), "cache");
}

#[test]
fn failed_generation_may_be_retried() {
    let mut cache = Cache::new("cache");
    assert_eq!(cache.request(&key(1), false), Step::Generate);
    assert_eq!(cache.request(&key(1), false), Step::Await);
    let failure = Failure::Fetch("offline".to_string());
    match cache.complete::<()>(&key(1), Err(failure)) {
        Completion::Propagate(Failure::Fetch(report)) => assert_eq!(report, "offline"),
        other => panic!("not handed on: {:?}", other),
    }
    assert!(!cache.is_in_flight(&key(1)));
    assert!(!cache.is_complete(&key(1)));
    assert_eq!(cache.request(&key(1), false), Step::Generate);
}

#[test]
fn completion_leaves_other_keys_in_flight() {
    let mut cache = Cache::new("cache");
    for id in 1..=3 {
        assert_eq!(cache.request(&key(id), false), Step::Generate);
    }
    cache.complete(&key(2), Ok(()));
    assert!(cache.is_in_flight(&key(1)));
    assert!(!cache.is_in_flight(&key(2)));
    assert!(cache.is_in_flight(&key(3)));
    assert_eq!(cache.request(&key(1), false), Step::Await);
}

#[test]
fn keys_compare_by_repository_and_artifact() {
    let mut other = key(1);
    other.repository.name = "ide".to_string();
    assert!(key(1).same_as(&key(1)));
    assert!(!key(1).same_as(&key(2)));
    assert!(!key(1).same_as(&other));
    let download = ExtractedArtifact { key: key(9) }.generate("cache/x".to_string());
    assert_eq!(download.artifact_id, 9);
    assert_eq!(download.repository.owner, "enso-org");
    assert_eq!(download.store, "cache/x");
}

#[test]
fn get_or_generate_derives_the_key() {
    let mut cache = Cache::new("cache");
    let storable = ExtractedArtifact::new(key(4).repository, 4);
    assert_eq!(cache.get_or_generate(&storable, false), Step::Generate);
    assert_eq!(cache.get_or_generate(&storable, false), Step::Await);
    assert!(cache.is_in_flight(&key(4)));
    cache.complete(&key(4), Ok(()));
    assert_eq!(cache.get_or_generate(&storable, false), Step::Adapt);
    assert_eq!(cache.get_or_generate(&ExtractedArtifact::new(key(5).repository, 5), true), Step::Adapt);
}
