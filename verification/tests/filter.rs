use capture::content::{
    query_shareable_content, ApplicationRef, ContentSnapshot, DirectoryReply, Display,
    PixelBounds, RunningApplication, WindowRef,
};
use capture::error::Error;
use capture::filter::build_filter;

fn display(id: u32) -> Display {
    Display { id, bounds: PixelBounds { x: 0, y: 0, width: 1920, height: 1080 } }
}

fn application(id: i32, name: &str) -> RunningApplication {
    RunningApplication { id, name: name.to_string() }
}

#[test]
fn one_display_no_applications() {
    let snapshot = ContentSnapshot::new(vec![display(1)], vec![]);
    let filter = build_filter(&snapshot, 0, vec![], vec![]).unwrap();
    assert_eq!(filter.display(), display(1));
    assert!(filter.included_apps().is_empty());
    assert!(filter.excluded_windows().is_empty());
    assert_eq!(build_filter(&snapshot, 1, vec![], vec![]), Err(Error::IndexOutOfRange));
}

#[test]
fn every_index_below_the_length_builds_a_filter() {
    let snapshot = ContentSnapshot::new(vec![display(10), display(11), display(12)], vec![]);
    for index in 0..3usize {
        let filter = build_filter(&snapshot, index, vec![], vec![]).unwrap();
        assert_eq!(filter.display().id, 10 + index as u32);
    }
    for index in [3usize, 4, 100, usize::MAX] {
        assert_eq!(build_filter(&snapshot, index, vec![], vec![]), Err(Error::IndexOutOfRange));
    }
}

#[test]
fn empty_snapshot_has_no_valid_index() {
    let snapshot = ContentSnapshot::new(vec![], vec![application(1, "Editor")]);
    assert_eq!(build_filter(&snapshot, 0, vec![], vec![]), Err(Error::IndexOutOfRange));
}

#[test]
fn filter_keeps_its_lists() {
    let snapshot = ContentSnapshot::new(vec![display(1), display(2)], vec![]);
    let apps = vec![ApplicationRef { id: 40 }, ApplicationRef { id: 41 }];
    let windows = vec![WindowRef { id: 7 }];
    let filter = build_filter(&snapshot, 1, apps.clone(), windows.clone()).unwrap();
    assert_eq!(filter.display(), display(2));
    assert_eq!(filter.included_apps(), &apps);
    assert_eq!(filter.excluded_windows(), &windows);
}

#[test]
fn application_refs_name_every_application_in_order() {
    let snapshot = ContentSnapshot::new(
        vec![display(1)],
        vec![application(300, "Terminal"), application(-1, "Odd"), application(12, "Editor")],
    );
    assert_eq!(
        snapshot.application_refs(),
        vec![ApplicationRef { id: 300 }, ApplicationRef { id: -1 }, ApplicationRef { id: 12 }]
    );
    assert_eq!(ContentSnapshot::new(vec![], vec![]).application_refs(), vec![]);
}

#[test]
fn snapshot_returns_what_it_was_given() {
    let snapshot = ContentSnapshot::new(vec![display(5)], vec![application(9, "Mail")]);
    assert_eq!(snapshot.displays(), &vec![display(5)]);
    assert_eq!(snapshot.applications(), &vec![application(9, "Mail")]);
}

#[test]
fn answered_query_gives_a_snapshot() {
    let reply = DirectoryReply::Content {
        displays: vec![display(3)],
        applications: vec![application(77, "Browser")],
    };
    let snapshot = query_shareable_content(reply).unwrap();
    assert_eq!(snapshot.displays(), &vec![display(3)]);
    assert_eq!(snapshot.applications(), &vec![application(77, "Browser")]);
}

#[test]
fn empty_answer_is_not_a_failure() {
    let reply = DirectoryReply::Content { displays: vec![], applications: vec![] };
    let snapshot = query_shareable_content(reply).unwrap();
    assert!(snapshot.displays().is_empty());
    assert!(snapshot.applications().is_empty());
}

#[test]
fn refused_query_is_directory_unavailable() {
    assert_eq!(
        query_shareable_content(DirectoryReply::PermissionDenied),
        Err(Error::DirectoryUnavailable)
    );
    assert_eq!(
        query_shareable_content(DirectoryReply::SubsystemUnavailable),
        Err(Error::DirectoryUnavailable)
    );
}

#[test]
fn native_bounds_are_brought_into_range() {
    assert_eq!(
        PixelBounds::from_native(-1920, 0, 1920, 1080),
        PixelBounds { x: -1920, y: 0, width: 1920, height: 1080 }
    );
    assert_eq!(
        PixelBounds::from_native(i64::MIN, i64::MAX, -1, i64::MAX),
        PixelBounds { x: i32::MIN, y: i32::MAX, width: 0, height: u32::MAX }
    );
    assert_eq!(
        PixelBounds::from_native(i32::MAX as i64 + 1, i32::MIN as i64 - 1, u32::MAX as i64, 0),
        PixelBounds { x: i32::MAX, y: i32::MIN, width: u32::MAX, height: 0 }
    );
}
