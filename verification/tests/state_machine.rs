use stu_core::app::{App, DetailViewState, Notification, ViewState};
use stu_core::error::AppError;
use stu_core::event::{
    AppEventType, CompleteDownloadObjectResult, CompleteInitializeResult, CompleteLoadObjectResult,
    CompleteLoadObjectsResult, ConsoleTarget,
};
use stu_core::item::{AppObjects, FileDetail, FileVersion, Item};

fn bucket(name: &str) -> Item {
    Item::Bucket { name: name.to_string() }
}

fn file(name: &str) -> Item {
    Item::File { name: name.to_string(), size_byte: 1024 + 10, last_modified: 1_704_200_462 }
}

fn detail(name: &str, key: &str) -> FileDetail {
    FileDetail {
        name: name.to_string(),
        size_byte: 1024 + 10,
        last_modified: 1_704_200_462,
        e_tag: "bef684de-a260-48a4-8178-8a535ecccadb".to_string(),
        content_type: "text/plain".to_string(),
        storage_class: "STANDARD".to_string(),
        key: key.to_string(),
        s3_uri: format!("s3://bucket-1/{}", key),
        arn: format!("arn:aws:s3:::bucket-1/{}", key),
        object_url: format!("https://bucket-1.example.com/{}", key),
    }
}

fn version(id: &str) -> FileVersion {
    FileVersion {
        version_id: id.to_string(),
        size_byte: 1024 + 10,
        last_modified: 1_704_200_462,
        is_latest: true,
    }
}

/// An app showing a listing of `n` bucket entries, with a window of 10 rows.
fn listing_app(n: usize) -> App {
    let mut app = App::new(17);
    let buckets: Vec<Item> = (0..n).map(|i| bucket(&format!("bucket-{:03}", i))).collect();
    app.complete_initialize(Ok(CompleteInitializeResult::new(buckets)));
    app
}

fn viewport(app: &App) -> (usize, usize) {
    (
        app.app_view_state.list_state.selected,
        app.app_view_state.list_state.offset,
    )
}

#[test]
fn test_initialize_completion_seeds_root_listing() {
    // pending fetch completes with two buckets
    let mut app = App::new(17);
    assert_eq!(app.app_view_state.view_state, ViewState::Initializing);
    assert!(app.app_view_state.is_loading);
    let buckets = vec![bucket("alpha"), bucket("beta")];
    app.complete_initialize(Ok(CompleteInitializeResult::new(buckets.clone())));
    assert_eq!(app.app_view_state.view_state, ViewState::ObjectList);
    assert!(!app.app_view_state.is_loading);
    assert_eq!(app.current_items(), buckets);
    assert_eq!(app.app_view_state.list_state.selected, 0);
}

#[test]
fn test_initialize_failure_sets_notification() {
    let mut app = App::new(17);
    app.complete_initialize(Err(AppError::new("forbidden".to_string())));
    assert_eq!(app.app_view_state.view_state, ViewState::Initializing);
    assert!(!app.app_view_state.is_loading);
    assert_eq!(
        app.app_view_state.notification,
        Notification::Error("forbidden".to_string())
    );
    let events = app.take_pending_events();
    assert_eq!(events, vec![AppEventType::Error(AppError::new("forbidden".to_string()))]);
}

#[test]
fn test_select_first_and_last() {
    let mut app = listing_app(100);
    app.select_next();
    app.select_next();
    app.select_first();
    assert_eq!(viewport(&app), (0, 0));
    app.select_last();
    assert_eq!(viewport(&app), (99, 90));
}

#[test]
fn test_select_last_short_listing_keeps_offset_zero() {
    let mut app = listing_app(5);
    app.select_last();
    assert_eq!(viewport(&app), (4, 0));
}

#[test]
fn test_select_next_wraps_and_scrolls() {
    let mut app = listing_app(12);
    for i in 1..10 {
        app.select_next();
        assert_eq!(viewport(&app), (i, 0));
    }
    app.select_next();
    assert_eq!(viewport(&app), (10, 1));
    app.select_next();
    assert_eq!(viewport(&app), (11, 2));
    // from the last entry the cursor wraps back to the top
    app.select_next();
    assert_eq!(viewport(&app), (0, 0));
}

#[test]
fn test_select_prev_wraps_to_last() {
    let mut app = listing_app(12);
    app.select_prev();
    assert_eq!(viewport(&app), (11, 2));
    app.select_prev();
    assert_eq!(viewport(&app), (10, 2));
}

#[test]
fn test_select_next_page_walk() {
    // 100 entries in a 10-row window: whole pages, then the exact last entry
    let mut app = listing_app(100);
    let mut expected = Vec::new();
    for i in 1..=9 {
        expected.push((10 * i, 10 * i));
    }
    expected.push((99, 90));
    for want in expected {
        app.select_next_page();
        assert_eq!(viewport(&app), want);
    }
}

#[test]
fn test_select_prev_page_walk() {
    let mut app = listing_app(100);
    app.select_last();
    assert_eq!(viewport(&app), (99, 90));
    app.select_prev_page();
    assert_eq!(viewport(&app), (89, 80));
    app.select_prev_page();
    assert_eq!(viewport(&app), (79, 70));
}

#[test]
fn test_viewport_invariants_hold_along_a_walk() {
    let mut app = listing_app(23);
    let height = 10;
    let total = 23;
    for step in 0..200 {
        match step % 4 {
            0 => app.select_next(),
            1 => app.select_next_page(),
            2 => app.select_prev(),
            _ => app.select_prev_page(),
        }
        let (selected, offset) = viewport(&app);
        assert!(offset <= selected);
        assert!(selected < total);
        assert!(selected - offset < height);
        assert!(offset + height <= total);
    }
}

#[test]
fn test_cache_round_trip() {
    let mut objects = AppObjects::new();
    let path = vec!["b1".to_string(), "p".to_string()];
    let other = vec!["b2".to_string()];
    assert!(!objects.exists_item(&path));
    assert_eq!(objects.get_items(&other), Vec::<Item>::new());
    let items = vec![file("z"), file("a"), file("m")];
    objects.set_items(path.clone(), items.clone());
    assert!(objects.exists_item(&path));
    assert_eq!(objects.get_items(&path), items);
    assert_eq!(objects.get_items_len(&path), 3);
    assert_eq!(objects.get_items(&other), Vec::<Item>::new());
    // replacing a path overrides the earlier listing
    let fewer = vec![file("only")];
    objects.set_items(path.clone(), fewer.clone());
    assert_eq!(objects.get_items(&path), fewer);
}

#[test]
fn test_object_details_cache() {
    let mut objects = AppObjects::new();
    let key = "b1/p/file.txt".to_string();
    assert!(!objects.exists_object_details(&key));
    assert!(objects.get_object_detail(&key).is_none());
    let d = detail("file.txt", "p/file.txt");
    let versions = vec![version("v1"), version("v2")];
    objects.set_object_details(&key, d.clone(), versions.clone());
    assert!(objects.exists_object_details(&key));
    assert_eq!(objects.get_object_detail(&key), Some(&d));
    assert_eq!(objects.get_object_versions(&key), Some(&versions));
}

#[test]
fn test_move_down_descends_and_requests_load() {
    let mut app = App::new(17);
    app.complete_initialize(Ok(CompleteInitializeResult::new(vec![
        bucket("b1"),
        bucket("b2"),
    ])));
    assert_eq!(app.take_pending_events(), Vec::<AppEventType>::new());
    app.move_down();
    assert_eq!(app.current_key_string(), " b1 ");
    assert_eq!(viewport(&app), (0, 0));
    assert!(app.app_view_state.is_loading);
    // the listing under b1 was not cached, so a load is requested
    assert_eq!(app.take_pending_events(), vec![AppEventType::LoadObjects]);
}

#[test]
fn test_move_down_into_cached_listing_requests_nothing() {
    let mut app = App::new(17);
    app.complete_initialize(Ok(CompleteInitializeResult::new(vec![
        bucket("b1"),
        bucket("b2"),
    ])));
    app.move_down();
    app.take_pending_events();
    app.complete_load_objects(Ok(CompleteLoadObjectsResult::new(vec![file("f")])));
    app.move_up();
    assert_eq!(app.current_key_string(), "  ");
    // descending again finds the listing cached: no event, not loading
    app.move_down();
    assert_eq!(app.current_key_string(), " b1 ");
    assert!(!app.app_view_state.is_loading);
    assert_eq!(app.take_pending_events(), Vec::<AppEventType>::new());
}

#[test]
fn test_move_up_pops_exactly_one_segment() {
    let mut app = App::new(17);
    app.complete_initialize(Ok(CompleteInitializeResult::new(vec![bucket("b1")])));
    app.move_down();
    app.take_pending_events();
    assert_eq!(app.current_key_string(), " b1 ");
    app.select_next();
    app.move_up();
    assert_eq!(app.current_key_string(), "  ");
    assert_eq!(viewport(&app), (0, 0));
    // at the root there is nothing to pop
    app.move_up();
    assert_eq!(app.current_key_string(), "  ");
}

#[test]
fn test_file_detail_flow() {
    let mut app = App::new(17);
    app.complete_initialize(Ok(CompleteInitializeResult::new(vec![bucket("b1")])));
    app.move_down();
    app.take_pending_events();
    app.complete_load_objects(Ok(CompleteLoadObjectsResult::new(vec![file("file.txt")])));
    assert!(app.get_current_file_detail().is_none());
    // a file without cached metadata asks for a load
    app.move_down();
    assert_eq!(app.take_pending_events(), vec![AppEventType::LoadObject]);
    assert!(app.app_view_state.is_loading);
    let request = app.load_object().expect("a file is selected");
    assert_eq!(request.bucket, "b1");
    assert_eq!(request.key, "file.txt");
    assert_eq!(request.map_key, "b1/file.txt");
    assert_eq!(request.size_byte, 1024 + 10);
    let d = detail("file.txt", "file.txt");
    let versions = vec![version("v1")];
    app.complete_load_object(Ok(CompleteLoadObjectResult::new(
        d.clone(),
        versions.clone(),
        request.map_key,
    )));
    assert_eq!(
        app.app_view_state.view_state,
        ViewState::Detail(DetailViewState::Detail)
    );
    assert!(!app.app_view_state.is_loading);
    // leaving the detail page and descending again uses the cache
    app.move_up();
    app.move_down();
    assert_eq!(
        app.app_view_state.view_state,
        ViewState::Detail(DetailViewState::Detail)
    );
    assert_eq!(app.take_pending_events(), Vec::<AppEventType>::new());
    assert_eq!(app.get_current_file_detail(), Some(&d));
    assert_eq!(app.get_current_file_versions(), Some(&versions));
}

#[test]
fn test_select_tabs_toggles_detail_tabs() {
    let mut app = App::new(17);
    // select_tabs does nothing outside the detail page
    app.select_tabs();
    assert_eq!(app.app_view_state.view_state, ViewState::Initializing);
    app.complete_initialize(Ok(CompleteInitializeResult::new(vec![bucket("b1")])));
    app.move_down();
    app.take_pending_events();
    app.complete_load_objects(Ok(CompleteLoadObjectsResult::new(vec![file("f")])));
    app.move_down();
    app.take_pending_events();
    app.complete_load_object(Ok(CompleteLoadObjectResult::new(
        detail("f", "f"),
        vec![],
        "b1/f".to_string(),
    )));
    app.select_tabs();
    assert_eq!(
        app.app_view_state.view_state,
        ViewState::Detail(DetailViewState::Version)
    );
    app.select_tabs();
    assert_eq!(
        app.app_view_state.view_state,
        ViewState::Detail(DetailViewState::Detail)
    );
}

#[test]
fn test_toggle_help_twice_restores_the_tab() {
    let mut app = App::new(17);
    app.complete_initialize(Ok(CompleteInitializeResult::new(vec![bucket("b1")])));
    app.move_down();
    app.take_pending_events();
    app.complete_load_objects(Ok(CompleteLoadObjectsResult::new(vec![file("f")])));
    app.move_down();
    app.take_pending_events();
    app.complete_load_object(Ok(CompleteLoadObjectResult::new(
        detail("f", "f"),
        vec![],
        "b1/f".to_string(),
    )));
    app.select_tabs();
    let before = ViewState::Detail(DetailViewState::Version);
    assert_eq!(app.app_view_state.view_state, before);
    app.toggle_help();
    assert!(matches!(app.app_view_state.view_state, ViewState::Help(_)));
    app.toggle_help();
    assert_eq!(app.app_view_state.view_state, before);
    // help is not offered before initialization completes
    let mut fresh = App::new(17);
    fresh.toggle_help();
    assert_eq!(fresh.app_view_state.view_state, ViewState::Initializing);
}

#[test]
fn test_move_up_closes_help() {
    let mut app = listing_app(2);
    app.toggle_help();
    assert!(matches!(app.app_view_state.view_state, ViewState::Help(_)));
    app.move_up();
    assert_eq!(app.app_view_state.view_state, ViewState::ObjectList);
}

#[test]
fn test_back_to_bucket_list_clears_the_whole_path() {
    let mut app = App::new(17);
    app.complete_initialize(Ok(CompleteInitializeResult::new(vec![bucket("b1")])));
    app.move_down();
    app.take_pending_events();
    app.complete_load_objects(Ok(CompleteLoadObjectsResult::new(vec![bucket("deep")])));
    app.move_down();
    app.take_pending_events();
    app.complete_load_objects(Ok(CompleteLoadObjectsResult::new(vec![file("f")])));
    assert_eq!(app.current_key_string(), " b1 / deep ");
    app.back_to_bucket_list();
    assert_eq!(app.current_key_string(), "  ");
}

#[test]
fn test_download_flow_notifications() {
    let mut app = App::new(17);
    app.complete_initialize(Ok(CompleteInitializeResult::new(vec![bucket("b1")])));
    app.move_down();
    app.take_pending_events();
    app.complete_load_objects(Ok(CompleteLoadObjectsResult::new(vec![file("f")])));
    app.move_down();
    app.take_pending_events();
    app.complete_load_object(Ok(CompleteLoadObjectResult::new(
        detail("f", "f"),
        vec![],
        "b1/f".to_string(),
    )));
    app.download();
    assert_eq!(app.take_pending_events(), vec![AppEventType::DownloadObject]);
    let request = app.download_object().expect("a file is selected");
    assert_eq!(request.bucket, "b1");
    assert_eq!(request.key, "f");
    app.complete_download_object(Ok(CompleteDownloadObjectResult::new(
        "/tmp/f".to_string(),
    )));
    assert_eq!(
        app.app_view_state.notification,
        Notification::Info("Download completed successfully: /tmp/f".to_string())
    );
    app.complete_download_object(Err(AppError::new("disk full".to_string())));
    assert_eq!(
        app.app_view_state.notification,
        Notification::Error("disk full".to_string())
    );
}

#[test]
fn test_load_objects_request_snapshot() {
    let mut app = App::new(17);
    app.complete_initialize(Ok(CompleteInitializeResult::new(vec![bucket("b1")])));
    app.move_down();
    app.take_pending_events();
    app.complete_load_objects(Ok(CompleteLoadObjectsResult::new(vec![bucket("p")])));
    app.move_down();
    app.take_pending_events();
    let request = app.load_objects();
    assert_eq!(request.bucket, "b1");
    assert_eq!(request.prefix, "p/");
}

#[test]
fn test_open_management_console_targets() {
    let mut app = listing_app(2);
    assert_eq!(app.open_management_console(), Some(ConsoleTarget::Buckets));
    let mut app = App::new(17);
    app.complete_initialize(Ok(CompleteInitializeResult::new(vec![bucket("b1")])));
    app.move_down();
    app.take_pending_events();
    assert_eq!(
        app.open_management_console(),
        Some(ConsoleTarget::List { bucket: "b1".to_string(), prefix: "".to_string() })
    );
}

#[test]
fn test_resize_keeps_the_offset() {
    let mut app = listing_app(100);
    app.select_next_page();
    assert_eq!(viewport(&app), (10, 10));
    app.resize(27);
    assert_eq!(app.app_view_state.list_state.height, 20);
    assert_eq!(viewport(&app), (10, 10));
}
