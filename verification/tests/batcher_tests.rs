use stui_runtime::catalog::{CatalogEntry, GridUpdate, GridUpdateSource};
use stui_runtime::ipc_batcher::{batch_step, BatchAction, BatchEvent, UpdateBuffer, MAX_BATCH_SIZE};

fn make_update(tab: &str, source: GridUpdateSource, count: usize) -> GridUpdate {
    GridUpdate {
        tab: tab.to_string(),
        entries: (0..count)
            .map(|i| CatalogEntry {
                id: format!("{}_{}", tab, i),
                title: format!("Title {}", i),
                year: Some("2024".to_string()),
                provider: "test".to_string(),
                tab: tab.to_string(),
                ..Default::default()
            })
            .collect(),
        source,
    }
}

fn delivered(a: BatchAction) -> Vec<GridUpdate> {
    match a {
        BatchAction::Deliver(v) => v,
        other => panic!("expected a delivery, got {:?}", other),
    }
}

#[test]
fn batcher_merges_same_tab() {
    let mut buf = UpdateBuffer::new();
    assert!(matches!(
        batch_step(&mut buf, BatchEvent::Update(make_update("movies", GridUpdateSource::Live, 5)), 0, 100),
        BatchAction::Wait { restart: false }
    ));
    batch_step(&mut buf, BatchEvent::Update(make_update("movies", GridUpdateSource::Live, 3)), 50, 100);
    let updates = delivered(batch_step(&mut buf, BatchEvent::Tick, 100, 100));
    assert_eq!(updates.len(), 1);
    assert_eq!(updates[0].entries.len(), 8);
    assert_eq!(updates[0].tab, "movies");
    assert!(buf.is_empty());
}

#[test]
fn batcher_separates_tabs_and_merges_sources_of_one_tab() {
    let mut buf = UpdateBuffer::new();
    buf.insert(make_update("movies", GridUpdateSource::Live, 5));
    buf.insert(make_update("series", GridUpdateSource::Live, 3));
    buf.insert(make_update("movies", GridUpdateSource::Cache, 2));
    assert_eq!(buf.len(), 2);
    let v = buf.drain();
    assert_eq!(v.iter().map(|g| g.entries.len()).collect::<Vec<_>>(), vec![7, 3]);
    assert_eq!(buf.len(), 0);
}

#[test]
fn batcher_merges_cache_and_live_updates_of_one_tab() {
    let mut buf = UpdateBuffer::new();
    buf.insert(make_update("movies", GridUpdateSource::Cache, 5));
    buf.insert(make_update("movies", GridUpdateSource::Live, 3));
    let v = buf.drain();
    assert_eq!(v.len(), 1);
    assert_eq!(v[0].entries.len(), 8);
    assert_eq!(v[0].tab, "movies");
}

#[test]
fn batcher_delivers_when_full() {
    let mut buf = UpdateBuffer::new();
    let mut out = None;
    for i in 0..12 {
        let a = batch_step(&mut buf, BatchEvent::Update(make_update(&format!("tab_{}", i), GridUpdateSource::Live, 1)), 0, u64::MAX);
        if let BatchAction::Deliver(v) = a {
            out = Some(v);
            break;
        }
    }
    assert_eq!(out.unwrap().len(), MAX_BATCH_SIZE);
}

#[test]
fn batcher_delivers_when_interval_passed() {
    let mut buf = UpdateBuffer::new();
    let v = delivered(batch_step(&mut buf, BatchEvent::Update(make_update("movies", GridUpdateSource::Live, 5)), 100, 100));
    assert_eq!(v.len(), 1);
    assert_eq!(v[0].entries.len(), 5);
}

#[test]
fn batcher_close_and_lag() {
    let mut buf = UpdateBuffer::new();
    assert!(matches!(batch_step(&mut buf, BatchEvent::Closed, 0, 100), BatchAction::Finish));
    assert!(matches!(batch_step(&mut buf, BatchEvent::Tick, 0, 100), BatchAction::Wait { restart: true }));
    buf.insert(make_update("movies", GridUpdateSource::Live, 2));
    assert!(delivered(batch_step(&mut buf, BatchEvent::Lagged, 0, 100)).is_empty());
    assert!(buf.is_empty());
    buf.insert(make_update("movies", GridUpdateSource::Live, 2));
    assert_eq!(delivered(batch_step(&mut buf, BatchEvent::Closed, 0, 100)).len(), 1);
}
