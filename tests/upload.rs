use qrsync::routes::{page_path, route_table, Handler, Method, Page, FALLBACK_STATUS};
use qrsync::upload::{is_storable_name, UploadAction, UploadEvent, UploadSession};

fn part(file_name: Option<&str>, content_type: Option<&str>) -> UploadEvent {
    UploadEvent::Part {
        file_name: file_name.map(|s| s.to_string()),
        content_type: content_type.map(|s| s.to_string()),
    }
}

fn run(events: &[UploadEvent]) -> Vec<UploadAction> {
    let mut session = UploadSession::new();
    let mut actions = Vec::new();
    for event in events {
        assert!(!session.finished());
        actions.push(session.step(event));
    }
    assert!(session.finished());
    actions
}

/// The names that a request commits files to: those of its final action.
fn stored(actions: &[UploadAction]) -> Vec<String> {
    actions
        .iter()
        .flat_map(|a| match a {
            UploadAction::Finish { commit, .. } => commit.clone(),
            _ => Vec::new(),
        })
        .collect()
}

fn staged(actions: &[UploadAction]) -> Vec<String> {
    actions
        .iter()
        .filter_map(|a| match a {
            UploadAction::Stage { file_name, .. } => Some(file_name.clone()),
            _ => None,
        })
        .collect()
}

fn final_page(actions: &[UploadAction]) -> Option<Page> {
    match actions.last() {
        Some(UploadAction::Finish { page, .. }) => Some(*page),
        _ => None,
    }
}

#[test]
fn upload_with_an_unnamed_and_a_named_part_stores_one_file() {
    let actions = run(&[part(Some(""), Some("text/plain")), part(Some("hello.txt"), None), UploadEvent::End]);
    assert_eq!(stored(&actions), vec!["hello.txt".to_string()]);
    assert!(matches!(actions[0], UploadAction::Skip));
    assert_eq!(final_page(&actions), Some(Page::ReceiveDone));
    let actions = run(&[part(Some("hello.txt"), None), part(Some(""), None), UploadEvent::End]);
    assert_eq!(stored(&actions), vec!["hello.txt".to_string()]);
    assert_eq!(final_page(&actions), Some(Page::ReceiveDone));
}

#[test]
fn upload_with_malformed_framing_stores_nothing() {
    let actions = run(&[UploadEvent::Malformed]);
    assert!(stored(&actions).is_empty());
    assert_eq!(final_page(&actions), Some(Page::Error));
    let actions = run(&[part(None, None), UploadEvent::Malformed]);
    assert!(stored(&actions).is_empty());
    assert_eq!(final_page(&actions), Some(Page::Error));
}

#[test]
fn upload_broken_after_named_parts_stores_nothing() {
    let actions = run(&[part(Some("a"), None), part(Some("b.txt"), Some("text/plain")), UploadEvent::Malformed]);
    assert_eq!(staged(&actions), vec!["a".to_string(), "b.txt".to_string()]);
    assert!(stored(&actions).is_empty());
    assert_eq!(final_page(&actions), Some(Page::Error));
}

#[test]
fn upload_commits_staged_parts_in_order() {
    let actions = run(&[part(Some("b"), None), part(None, None), part(Some("a"), None), UploadEvent::End]);
    assert_eq!(staged(&actions), vec!["b".to_string(), "a".to_string()]);
    assert_eq!(stored(&actions), vec!["b".to_string(), "a".to_string()]);
}

#[test]
fn upload_keeps_declared_content_type_or_defaults_to_text() {
    let actions = run(&[part(Some("a.png"), Some("image/png")), part(Some("b"), None), UploadEvent::End]);
    match (&actions[0], &actions[1]) {
        (
            UploadAction::Stage { file_name: a, content_type: ta },
            UploadAction::Stage { file_name: b, content_type: tb },
        ) => {
            assert_eq!((a.as_str(), ta.as_str()), ("a.png", "image/png"));
            assert_eq!((b.as_str(), tb.as_str()), ("b", "text/plain"));
        }
        _ => panic!("both parts should be staged"),
    }
}

#[test]
fn upload_skips_names_that_leave_the_root_directory() {
    let actions = run(&[
        part(Some("../evil"), None),
        part(Some("a/b"), None),
        part(Some("a\\b"), None),
        part(Some("."), None),
        part(Some(".."), None),
        part(Some("..."), None),
        part(Some(".hidden"), None),
        UploadEvent::End,
    ]);
    assert_eq!(stored(&actions), vec!["...".to_string(), ".hidden".to_string()]);
}

#[test]
fn storable_names() {
    assert!(is_storable_name("report final.pdf"));
    assert!(is_storable_name("日本.txt"));
    assert!(!is_storable_name(""));
    assert!(!is_storable_name("dir/file"));
    assert!(!is_storable_name(".."));
}

#[test]
fn route_table_binds_every_fixed_route() {
    let table = route_table();
    let entries: Vec<(Method, &str, Handler)> =
        table.iter().map(|r| (r.method, r.path.as_str(), r.handler)).collect();
    assert_eq!(entries.len(), 9);
    assert_eq!(entries[0], (Method::Get, "/", Handler::Slash));
    assert_eq!(entries[7], (Method::Get, "/:file_name", Handler::Download));
    assert_eq!(entries[8], (Method::Post, "/receive", Handler::Upload));
    assert_eq!(page_path(Page::Error), "/error");
    assert_eq!(page_path(Page::ReceiveDone), "/receive_done");
    assert_eq!(FALLBACK_STATUS, 418);
}
