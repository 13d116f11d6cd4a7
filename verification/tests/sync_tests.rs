use mosaic::config::BaseMosaicConfig;
use mosaic::config::MosaicConfig;
use mosaic::config::MosaicProjectConfig;
use mosaic::config::ResolvedConfig;
use mosaic::error::AppError;
use mosaic::filter::RepoSummary;
use mosaic::sync::RepoRecord;
use mosaic::sync::run_sync_model;
use mosaic::sync::settle_resolution;

fn config(description: &str) -> ResolvedConfig {
    ResolvedConfig {
        content: MosaicConfig {
            base_config: BaseMosaicConfig {
                project: MosaicProjectConfig {
                    name: None,
                    description: Some(description.to_string()),
                    stars: false,
                    priority: 10,
                    version: false,
                    ignore: false,
                    handle: None,
                    deprecated: None,
                    alternative: None,
                },
                readme: None,
                website: None,
                package: None,
            },
            workspace: None,
        },
        external: false,
    }
}

fn summary(id: &str, description: &str) -> RepoSummary {
    RepoSummary {
        id: id.to_string(),
        name: format!("repo-{}", id),
        name_with_owner: format!("luxass/repo-{}", id),
        description: Some(description.to_string()),
        url: format!("https://example.test/repo-{}", id),
        is_fork: false,
        is_archived: false,
    }
}

fn record(id: &str, description: &str, last_updated: i64) -> RepoRecord {
    RepoRecord {
        github_id: id.to_string(),
        name: format!("repo-{}", id),
        name_with_owner: format!("luxass/repo-{}", id),
        description: Some(description.to_string()),
        url: format!("https://example.test/repo-{}", id),
        config: Some(config(description)),
        last_updated,
    }
}

fn ids_of(store: &[RepoRecord]) -> Vec<String> {
    store.iter().map(|r| r.github_id.clone()).collect()
}

#[test]
fn settled_resolutions_never_abort_the_batch() {
    assert!(settle_resolution(Ok(config("d"))).is_some());
    assert!(settle_resolution(Err(AppError::NotFound)).is_none());
    assert!(settle_resolution(Err(AppError::ResolveConfigError(String::from("bad")))).is_none());
    assert!(settle_resolution(Err(AppError::GitHubError(String::from("down")))).is_none());
}

#[test]
fn stale_records_are_deleted_by_reconciliation() {
    let store = vec![record("A", "a", 1), record("B", "b", 1), record("C", "c", 1)];
    let resolutions = vec![
        (summary("A", "a"), Some(config("a"))),
        (summary("C", "c"), Some(config("c"))),
    ];
    let out = run_sync_model(store, resolutions, &Vec::new(), 2);
    assert_eq!(ids_of(&out.store), vec![String::from("A"), String::from("C")]);
    assert!(out.errors.is_empty());
}

#[test]
fn a_repository_without_config_becomes_stale_and_is_deleted() {
    let store = vec![record("A", "a", 1), record("B", "b", 1)];
    let resolutions = vec![
        (summary("A", "a"), Some(config("a"))),
        (summary("B", "b"), None),
    ];
    let out = run_sync_model(store, resolutions, &Vec::new(), 2);
    assert_eq!(ids_of(&out.store), vec![String::from("A")]);
}

#[test]
fn an_empty_configured_set_wipes_the_store() {
    // The delete phase runs unconditionally: with nothing configured,
    // everything stored is removed.
    let store = vec![record("A", "a", 1), record("B", "b", 1)];
    let resolutions = vec![(summary("A", "a"), None)];
    let out = run_sync_model(store, resolutions, &Vec::new(), 2);
    assert!(out.store.is_empty());
}

#[test]
fn an_existing_record_is_updated_in_place_without_a_duplicate() {
    let store = vec![record("A", "stale description", 1)];
    let resolutions = vec![(summary("A", "fresh description"), Some(config("fresh description")))];
    let out = run_sync_model(store, resolutions, &Vec::new(), 7);
    assert_eq!(out.store.len(), 1);
    let rec = &out.store[0];
    assert_eq!(rec.github_id, "A");
    assert_eq!(rec.description.as_deref(), Some("fresh description"));
    assert_eq!(rec.last_updated, 7);
    let cfg = rec.config.as_ref().unwrap();
    assert_eq!(
        cfg.content.base_config.project.description.as_deref(),
        Some("fresh description")
    );
}

#[test]
fn an_unknown_record_is_inserted() {
    let store = Vec::new();
    let resolutions = vec![(summary("D", "d"), Some(config("d")))];
    let out = run_sync_model(store, resolutions, &Vec::new(), 3);
    assert_eq!(out.store.len(), 1);
    assert_eq!(out.store[0].github_id, "D");
    assert_eq!(out.store[0].name, "repo-D");
    assert_eq!(out.store[0].last_updated, 3);
}

#[test]
fn running_twice_with_no_upstream_changes_leaves_the_store_identical() {
    let store = vec![record("A", "old", 1), record("B", "gone", 1)];
    let resolutions = vec![
        (summary("A", "a"), Some(config("a"))),
        (summary("C", "c"), Some(config("c"))),
    ];
    let resolutions_again = vec![
        (summary("A", "a"), Some(config("a"))),
        (summary("C", "c"), Some(config("c"))),
    ];
    let store_again = vec![record("A", "old", 1), record("B", "gone", 1)];
    let resolutions_first = vec![
        (summary("A", "a"), Some(config("a"))),
        (summary("C", "c"), Some(config("c"))),
    ];
    let once = run_sync_model(store, resolutions, &Vec::new(), 5);
    let intermediate = run_sync_model(store_again, resolutions_first, &Vec::new(), 5);
    let twice = run_sync_model(intermediate.store, resolutions_again, &Vec::new(), 9);
    assert_eq!(ids_of(&once.store), ids_of(&twice.store));
    assert_eq!(once.store.len(), twice.store.len());
    for (a, b) in once.store.iter().zip(twice.store.iter()) {
        assert_eq!(a.github_id, b.github_id);
        assert_eq!(a.name, b.name);
        assert_eq!(a.name_with_owner, b.name_with_owner);
        assert_eq!(a.description, b.description);
        assert_eq!(a.url, b.url);
        // Only the write time may move between the runs.
        assert_eq!(a.last_updated, 5);
        assert_eq!(b.last_updated, 9);
    }
}

#[test]
fn a_failing_upsert_is_isolated_from_its_neighbours() {
    let store = Vec::new();
    let resolutions = vec![
        (summary("X1", "first"), Some(config("first"))),
        (summary("X2", "second"), Some(config("second"))),
        (summary("X3", "third"), Some(config("third"))),
    ];
    let faults = vec![String::from("X2")];
    let out = run_sync_model(store, resolutions, &faults, 4);
    assert_eq!(ids_of(&out.store), vec![String::from("X1"), String::from("X3")]);
    assert_eq!(out.store[0].description.as_deref(), Some("first"));
    assert_eq!(out.store[1].description.as_deref(), Some("third"));
    assert_eq!(out.errors, vec![String::from("X2")]);
}

#[test]
fn duplicate_items_update_the_same_record_and_the_last_wins() {
    let store = Vec::new();
    let resolutions = vec![
        (summary("A", "first write"), Some(config("first write"))),
        (summary("A", "second write"), Some(config("second write"))),
    ];
    let out = run_sync_model(store, resolutions, &Vec::new(), 2);
    assert_eq!(out.store.len(), 1);
    assert_eq!(out.store[0].description.as_deref(), Some("second write"));
}
