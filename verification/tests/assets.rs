use alkahest_shadowkeep::handle::{
    is_technique_loaded, null_handle, Handle, TechniqueStatus, UntypedHandle,
};
use alkahest_shadowkeep::manager::{
    AssetKind, AssetLoadState, AssetManager, LoadOutcome, TextureFallback,
};

struct TestAsset(u32);

#[test]
fn successful_publication_is_terminal_and_typed() {
    let mut asset: UntypedHandle<TestAsset> = UntypedHandle::new(0xffff_ffff);
    asset.update(TestAsset(42));

    assert!(asset.is_loaded());
    assert!(asset.failure().is_none());
    assert_eq!(Handle { asset }.get().unwrap().0, 42);
}

#[test]
fn failed_publication_is_terminal_without_fake_data() {
    let mut asset: UntypedHandle<TestAsset> = UntypedHandle::new(0xffff_ffff);
    asset.fail("decode failed".to_string());
    asset.update(TestAsset(42));

    assert!(asset.is_loaded());
    assert_eq!(asset.failure().map(|text| text.as_str()), Some("decode failed"));
    assert!(Handle { asset }.get().is_none());
}

#[test]
fn null_techniques_count_as_loaded() {
    let null: Handle<TechniqueStatus> = null_handle();
    assert!(null.is_null());
    assert!(is_technique_loaded(&null));
    let mut asset: UntypedHandle<TechniqueStatus> = UntypedHandle::new(0x8080_0011);
    assert!(!is_technique_loaded(&Handle {
        asset: UntypedHandle::new(0x8080_0011)
    }));
    asset.update(TechniqueStatus { loaded: true });
    assert!(is_technique_loaded(&Handle { asset }));
}

#[test]
fn requests_are_shared_and_typed() {
    let mut manager = AssetManager::new();
    let place = match manager.try_load(AssetKind::Texture, 0x8080_0011) {
        LoadOutcome::Queued { place } => place,
        other => panic!("unexpected {:?}", other),
    };
    assert_eq!(manager.count_loading(), 1);
    assert_eq!(
        manager.try_load(AssetKind::Texture, 0x8080_0011),
        LoadOutcome::Cached { place }
    );
    assert_eq!(
        manager.try_load(AssetKind::Technique, 0x8080_0011),
        LoadOutcome::WrongKind
    );
    assert_eq!(
        manager.try_load(AssetKind::Texture, 0xffff_ffff),
        LoadOutcome::Null
    );
    assert_eq!(manager.get(AssetKind::Texture, 0x8080_0011), Some(place));
    assert_eq!(manager.get(AssetKind::Texture, 0x8080_0012), None);
    assert_eq!(manager.load(AssetKind::Technique, 0x8080_0011), None);
    assert_eq!(manager.diagnostic_summary().queued, 1);
}

#[test]
fn outcomes_are_kept_by_tag() {
    let mut manager = AssetManager::new_shadowkeep();
    let first = manager.load(AssetKind::Texture, 0x8080_0022).unwrap();
    let second = manager.load(AssetKind::Technique, 0x8080_0011).unwrap();
    manager.start_loading(first);
    assert_eq!(manager.diagnostic_summary().loading, 1);
    manager.finish_loading(first, Ok(()));
    manager.finish_loading(second, Err("no entry".to_string()));
    manager.record_fallback(
        0x8080_0033,
        TextureFallback::GenericWhite,
        "white".to_string(),
    );
    let summary = manager.diagnostic_summary();
    assert_eq!(
        (summary.ready, summary.failed, summary.fallback, summary.queued, summary.loading),
        (1, 1, 1, 0, 0)
    );
    let known = manager.diagnostics();
    assert_eq!(
        known.iter().map(|entry| entry.tag).collect::<Vec<u32>>(),
        vec![0x8080_0011, 0x8080_0022, 0x8080_0033]
    );
    assert!(matches!(&known[0].state, AssetLoadState::Failed { error } if error == "no entry"));
    assert!(matches!(known[1].state, AssetLoadState::Ready));
    assert!(manager.is_idle(500_000_001));
    assert!(!manager.is_idle(500_000_000));
}

#[test]
fn only_unreferenced_assets_are_culled() {
    let mut manager = AssetManager::new();
    let place = manager.load(AssetKind::Texture, 0x8080_0011).unwrap();
    manager.remove_unreferenced();
    assert_eq!(manager.get(AssetKind::Texture, 0x8080_0011), Some(place));
    manager.release(place);
    manager.finish_loading(place, Ok(()));
    manager.release(place);
    manager.remove_unreferenced();
    assert_eq!(manager.get(AssetKind::Texture, 0x8080_0011), None);
    assert!(matches!(
        manager.try_load(AssetKind::Texture, 0x8080_0011),
        LoadOutcome::Queued { .. }
    ));
}
