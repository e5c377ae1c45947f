use rbxsync::config::DeclaredResource;
use rbxsync::directory::{DirectoryEntry, ListResponse};
use rbxsync::errors::SyncError;
use rbxsync::fields::Category;
use rbxsync::fingerprint::content_fingerprint;
use rbxsync::reconcile::{CategorySync, SyncAction, SyncEvent};
use rbxsync::state::SyncState;

fn declared(name: &str, icon: Option<&str>) -> DeclaredResource {
    DeclaredResource {
        name: name.to_string(),
        description: None,
        price: None,
        icon: icon.map(|s| s.to_string()),
        is_for_sale: None,
        is_enabled: None,
    }
}

fn page(items: Vec<(u64, &str)>, cursor: Option<&str>) -> ListResponse<DirectoryEntry> {
    ListResponse {
        data: items
            .into_iter()
            .map(|(id, name)| DirectoryEntry { id, name: name.to_string() })
            .collect(),
        next_page_cursor: cursor.map(|s| s.to_string()),
    }
}

#[test]
fn badge_creation_scenario() {
    // config declares a badge "Explorer" with an icon; no ledger, empty
    // remote directory: expect one upload, one create carrying the
    // returned asset id, one update against the created id, and a ledger
    // entry with the hash and asset id.
    let mut state = SyncState::new();
    let bytes = b"explorer png bytes".to_vec();
    let h1 = content_fingerprint(&bytes);

    let mut sync = CategorySync::new(
        Category::Badge,
        vec![declared("Explorer", Some("explorer.png"))],
    );
    assert!(matches!(sync.start(), SyncAction::FetchPage { cursor: None }));

    let a = sync.step(&mut state.badges, SyncEvent::PageFetched(Ok(page(vec![], None))));
    match a {
        SyncAction::ReadIcon { path } => assert_eq!(path, "explorer.png"),
        _ => panic!("expected an icon read"),
    }

    let a = sync.step(&mut state.badges, SyncEvent::IconBytes(Ok(bytes)));
    match a {
        SyncAction::Upload { path } => assert_eq!(path, "explorer.png"),
        _ => panic!("expected exactly one upload"),
    }

    let a = sync.step(&mut state.badges, SyncEvent::Uploaded(Ok(777)));
    match a {
        SyncAction::Create { fields } => {
            assert_eq!(fields.name, "Explorer");
            assert_eq!(fields.icon_asset_id, Some(777));
        },
        _ => panic!("expected exactly one create"),
    }

    let a = sync.step(&mut state.badges, SyncEvent::Created(Ok(123)));
    match a {
        SyncAction::Update { id, fields } => {
            assert_eq!(id, 123);
            assert_eq!(fields.icon_asset_id, Some(777));
        },
        _ => panic!("the created id must drive the following update"),
    }

    let a = sync.step(&mut state.badges, SyncEvent::Updated(Ok(())));
    assert!(matches!(a, SyncAction::Finished));

    assert_eq!(state.badges.len(), 1);
    let (id, entry) = state.find_badge_by_name("Explorer").expect("ledger entry");
    assert_eq!(id, 123);
    assert_eq!(entry.name, "Explorer");
    assert_eq!(entry.icon_hash.as_deref(), Some(h1.as_str()));
    assert_eq!(entry.icon_asset_id, Some(777));

    assert_eq!(sync.outcomes.len(), 1);
    assert_eq!(sync.outcomes[0].name, "Explorer");
    assert!(matches!(sync.outcomes[0].result, Ok(123)));
}

#[test]
fn second_run_reuses_icon_and_keeps_ledger() {
    // idempotence: with unchanged config and unchanged icon bytes, the
    // second run uploads nothing and leaves the ledger as it was.
    let bytes = b"explorer png bytes".to_vec();
    let h1 = content_fingerprint(&bytes);
    let mut state = SyncState::new();
    state.update_badge(123, "Explorer".to_string(), None, None, Some(h1.clone()), Some(777));
    let before = state.badges.clone();

    let mut sync = CategorySync::new(
        Category::Badge,
        vec![declared("Explorer", Some("explorer.png"))],
    );
    let a = sync.step(&mut state.badges, SyncEvent::PageFetched(Ok(page(vec![], None))));
    assert!(matches!(a, SyncAction::ReadIcon { .. }));

    // the same bytes hash to the recorded hash: no upload, straight to update
    let a = sync.step(&mut state.badges, SyncEvent::IconBytes(Ok(bytes)));
    match a {
        SyncAction::Update { id, fields } => {
            assert_eq!(id, 123);
            assert_eq!(fields.icon_asset_id, Some(777));
        },
        _ => panic!("an unchanged icon must not upload"),
    }

    let a = sync.step(&mut state.badges, SyncEvent::Updated(Ok(())));
    assert!(matches!(a, SyncAction::Finished));

    assert_eq!(state.badges.len(), before.len());
    assert_eq!(state.badges[0].0, before[0].0);
    assert_eq!(state.badges[0].1.name, before[0].1.name);
    assert_eq!(state.badges[0].1.icon_hash, before[0].1.icon_hash);
    assert_eq!(state.badges[0].1.icon_asset_id, before[0].1.icon_asset_id);
}

#[test]
fn changed_icon_triggers_one_upload_and_revert_reuses() {
    // content addressing: a changed byte re-uploads; reverting to the
    // recorded bytes reuses the prior asset id without an upload.
    let original = b"icon v1".to_vec();
    let h1 = content_fingerprint(&original);
    let changed = b"icon v2".to_vec();

    let mut state = SyncState::new();
    state.update_game_pass(
        10,
        "Sword".to_string(),
        None,
        None,
        None,
        Some(h1.clone()),
        Some(500),
    );

    // run with the changed bytes: upload required
    let mut sync = CategorySync::new(
        Category::GamePass,
        vec![declared("Sword", Some("sword.png"))],
    );
    sync.step(&mut state.game_passes, SyncEvent::PageFetched(Ok(page(vec![], None))));
    let a = sync.step(&mut state.game_passes, SyncEvent::IconBytes(Ok(changed)));
    assert!(matches!(a, SyncAction::Upload { .. }));
    let a = sync.step(&mut state.game_passes, SyncEvent::Uploaded(Ok(501)));
    match a {
        SyncAction::Update { id, fields } => {
            assert_eq!(id, 10);
            assert_eq!(fields.icon_asset_id, Some(501));
        },
        _ => panic!("expected the update after the upload"),
    }
    let a = sync.step(&mut state.game_passes, SyncEvent::Updated(Ok(())));
    assert!(matches!(a, SyncAction::Finished));

    // a ledger that records the original hash reuses the original asset
    // when the bytes revert to that exact content
    let mut state = SyncState::new();
    state.update_game_pass(
        10,
        "Sword".to_string(),
        None,
        None,
        None,
        Some(h1),
        Some(500),
    );
    let mut sync = CategorySync::new(
        Category::GamePass,
        vec![declared("Sword", Some("sword.png"))],
    );
    sync.step(&mut state.game_passes, SyncEvent::PageFetched(Ok(page(vec![], None))));
    let a = sync.step(&mut state.game_passes, SyncEvent::IconBytes(Ok(original)));
    match a {
        SyncAction::Update { id, fields } => {
            assert_eq!(id, 10);
            assert_eq!(fields.icon_asset_id, Some(500));
        },
        _ => panic!("reverted bytes must reuse the recorded asset id"),
    }
}

#[test]
fn ledger_identifier_wins_over_directory() {
    // identity precedence: the name is in the ledger under 100 and in the
    // remote directory under 200; the update goes against 100.
    let mut state = SyncState::new();
    state.update_game_pass(100, "Sword".to_string(), None, None, None, None, None);

    let mut sync = CategorySync::new(Category::GamePass, vec![declared("Sword", None)]);
    let a = sync.step(
        &mut state.game_passes,
        SyncEvent::PageFetched(Ok(page(vec![(200, "Sword")], None))),
    );
    match a {
        SyncAction::Update { id, .. } => assert_eq!(id, 100),
        _ => panic!("a ledger-known resource is updated"),
    }
}

#[test]
fn directory_resource_is_adopted_not_recreated() {
    // first-run adoption: absent from the ledger, present remotely under
    // 200: updated under 200 and recorded in the ledger under 200.
    let mut state = SyncState::new();
    let mut sync = CategorySync::new(Category::GamePass, vec![declared("Sword", None)]);
    let a = sync.step(
        &mut state.game_passes,
        SyncEvent::PageFetched(Ok(page(vec![(200, "Sword")], None))),
    );
    match a {
        SyncAction::Update { id, .. } => assert_eq!(id, 200),
        _ => panic!("a remotely listed resource is adopted, not created"),
    }
    let a = sync.step(&mut state.game_passes, SyncEvent::Updated(Ok(())));
    assert!(matches!(a, SyncAction::Finished));
    let (id, _) = state.find_game_pass_by_name("Sword").expect("adopted entry");
    assert_eq!(id, 200);
}

#[test]
fn one_resource_failure_does_not_stop_the_rest() {
    // failure isolation: the first badge's upload fails; the second is
    // still reconciled, and only the second reaches the ledger.
    let mut state = SyncState::new();
    let mut sync = CategorySync::new(
        Category::Badge,
        vec![declared("Broken", Some("broken.png")), declared("Fine", None)],
    );
    sync.step(&mut state.badges, SyncEvent::PageFetched(Ok(page(vec![], None))));
    let a = sync.step(&mut state.badges, SyncEvent::IconBytes(Ok(b"img".to_vec())));
    assert!(matches!(a, SyncAction::Upload { .. }));
    let a = sync.step(
        &mut state.badges,
        SyncEvent::Uploaded(Err(SyncError::UploadFailed("rejected".to_string()))),
    );
    // the machine moves on to "Fine", which must be created
    match a {
        SyncAction::Create { fields } => assert_eq!(fields.name, "Fine"),
        _ => panic!("the next resource proceeds after a failure"),
    }
    let a = sync.step(&mut state.badges, SyncEvent::Created(Ok(9)));
    assert!(matches!(a, SyncAction::Update { id: 9, .. }));
    let a = sync.step(&mut state.badges, SyncEvent::Updated(Ok(())));
    assert!(matches!(a, SyncAction::Finished));

    assert_eq!(sync.outcomes.len(), 2);
    assert_eq!(sync.outcomes[0].name, "Broken");
    assert!(matches!(
        sync.outcomes[0].result,
        Err(SyncError::UploadFailed(_))
    ));
    assert_eq!(sync.outcomes[1].name, "Fine");
    assert!(matches!(sync.outcomes[1].result, Ok(9)));

    assert!(state.find_badge_by_name("Broken").is_none());
    assert!(state.find_badge_by_name("Fine").is_some());
}

#[test]
fn listing_pages_are_followed_and_merged() {
    // pagination completeness: three pages, one duplicate name; every
    // name is present once, the later page winning the duplicate.
    let mut state = SyncState::new();
    let mut sync = CategorySync::new(Category::GamePass, vec![]);
    let a = sync.step(
        &mut state.game_passes,
        SyncEvent::PageFetched(Ok(page(vec![(1, "a"), (2, "b")], Some("c2")))),
    );
    match a {
        SyncAction::FetchPage { cursor } => assert_eq!(cursor.as_deref(), Some("c2")),
        _ => panic!("a page with a cursor asks for the next page"),
    }
    let a = sync.step(
        &mut state.game_passes,
        SyncEvent::PageFetched(Ok(page(vec![(3, "c")], Some("c3")))),
    );
    assert!(matches!(a, SyncAction::FetchPage { .. }));
    let a = sync.step(
        &mut state.game_passes,
        SyncEvent::PageFetched(Ok(page(vec![(4, "a")], None))),
    );
    assert!(matches!(a, SyncAction::Finished));

    assert_eq!(sync.directory.len(), 3);
    assert_eq!(rbxsync::directory::directory_lookup(&sync.directory, "a"), Some(4));
    assert_eq!(rbxsync::directory::directory_lookup(&sync.directory, "b"), Some(2));
    assert_eq!(rbxsync::directory::directory_lookup(&sync.directory, "c"), Some(3));
}

#[test]
fn ledger_match_ignores_case_but_directory_match_is_exact() {
    // ledger lookup is case-insensitive: "SWORD" in the ledger matches the
    // declared "sword"
    let mut state = SyncState::new();
    state.update_game_pass(100, "SWORD".to_string(), None, None, None, None, None);
    let mut sync = CategorySync::new(Category::GamePass, vec![declared("sword", None)]);
    let a = sync.step(&mut state.game_passes, SyncEvent::PageFetched(Ok(page(vec![], None))));
    assert!(matches!(a, SyncAction::Update { id: 100, .. }));

    // directory lookup is exact: "Sword" remotely does not match "sword",
    // so the resource is created
    let mut state = SyncState::new();
    let mut sync = CategorySync::new(Category::GamePass, vec![declared("sword", None)]);
    let a = sync.step(
        &mut state.game_passes,
        SyncEvent::PageFetched(Ok(page(vec![(200, "Sword")], None))),
    );
    assert!(matches!(a, SyncAction::Create { .. }));
}

#[test]
fn game_pass_ledger_entry_records_declared_fields() {
    let mut state = SyncState::new();
    let mut resource = declared("Sword", None);
    resource.description = Some("sharp".to_string());
    resource.price = Some(25);
    resource.is_for_sale = Some(true);
    let mut sync = CategorySync::new(Category::GamePass, vec![resource]);
    sync.step(&mut state.game_passes, SyncEvent::PageFetched(Ok(page(vec![], None))));
    sync.step(&mut state.game_passes, SyncEvent::Created(Ok(55)));
    sync.step(&mut state.game_passes, SyncEvent::Updated(Ok(())));
    let (id, e) = state.find_game_pass_by_name("sword").expect("entry");
    assert_eq!(id, 55);
    assert_eq!(e.description.as_deref(), Some("sharp"));
    assert_eq!(e.price, Some(25));
    assert_eq!(e.is_for_sale, Some(true));
    assert_eq!(e.is_enabled, None);
    assert_eq!(e.icon_hash, None);
    assert_eq!(e.icon_asset_id, None);
}

#[test]
fn listing_failure_finishes_the_category() {
    let mut state = SyncState::new();
    let mut sync = CategorySync::new(Category::Badge, vec![declared("X", None)]);
    let a = sync.step(
        &mut state.badges,
        SyncEvent::PageFetched(Err(SyncError::RemoteError("503".to_string()))),
    );
    assert!(matches!(a, SyncAction::Finished));
    assert!(matches!(sync.listing_error, Some(SyncError::RemoteError(_))));
    assert!(state.badges.is_empty());
}

#[test]
fn update_failure_leaves_ledger_untouched() {
    let mut state = SyncState::new();
    state.update_game_pass(
        10,
        "Sword".to_string(),
        Some("old".to_string()),
        Some(5),
        None,
        None,
        None,
    );
    let mut sync = CategorySync::new(Category::GamePass, vec![declared("Sword", None)]);
    let a = sync.step(&mut state.game_passes, SyncEvent::PageFetched(Ok(page(vec![], None))));
    assert!(matches!(a, SyncAction::Update { id: 10, .. }));
    let a = sync.step(
        &mut state.game_passes,
        SyncEvent::Updated(Err(SyncError::RemoteError("500".to_string()))),
    );
    assert!(matches!(a, SyncAction::Finished));
    let (_, e) = state.find_game_pass_by_name("Sword").expect("entry kept");
    assert_eq!(e.description.as_deref(), Some("old"));
    assert_eq!(e.price, Some(5));
    assert!(matches!(sync.outcomes[0].result, Err(SyncError::RemoteError(_))));
}

#[test]
fn icon_read_failure_fails_only_that_resource() {
    let mut state = SyncState::new();
    let mut sync = CategorySync::new(
        Category::Badge,
        vec![declared("NoFile", Some("missing.png"))],
    );
    sync.step(&mut state.badges, SyncEvent::PageFetched(Ok(page(vec![], None))));
    let a = sync.step(
        &mut state.badges,
        SyncEvent::IconBytes(Err(SyncError::AssetNotFound("missing.png".to_string()))),
    );
    assert!(matches!(a, SyncAction::Finished));
    assert!(matches!(
        sync.outcomes[0].result,
        Err(SyncError::AssetNotFound(_))
    ));
    assert!(state.badges.is_empty());
}
