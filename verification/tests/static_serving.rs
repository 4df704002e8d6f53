use sv2_ui::assets::AssetStore;
use sv2_ui::respond::BodyData;

fn bundle() -> AssetStore {
    let mut store = AssetStore::new();
    assert!(store.add(String::from("index.html"), b"<html>shell</html>".to_vec()));
    assert!(store.add(String::from("style.css"), b"body{margin:0}".to_vec()));
    assert!(store.add(String::from("assets/logo.svg"), b"<svg/>".to_vec()));
    assert!(store.add(String::from("LICENSE"), b"license text".to_vec()));
    store
}

fn body_bytes(body: BodyData) -> Vec<u8> {
    match body {
        BodyData::Bytes(b) => b,
        BodyData::Text(_) => panic!("expected a byte body"),
    }
}

#[test]
fn exact_match_returns_bytes_unmodified_with_css_mime() {
    let store = bundle();
    let plan = store.serve("/style.css");
    assert_eq!(plan.status, 200);
    assert_eq!(plan.content_type.as_deref(), Some("text/css"));
    assert_eq!(body_bytes(plan.body), b"body{margin:0}".to_vec());
}

#[test]
fn nested_exact_match_is_served() {
    let store = bundle();
    let plan = store.serve("/assets/logo.svg");
    assert_eq!(plan.status, 200);
    assert_eq!(plan.content_type.as_deref(), Some("image/svg+xml"));
    assert_eq!(body_bytes(plan.body), b"<svg/>".to_vec());
}

#[test]
fn unknown_extension_falls_back_to_octet_stream() {
    let store = bundle();
    let plan = store.serve("/LICENSE");
    assert_eq!(plan.status, 200);
    assert_eq!(plan.content_type.as_deref(), Some("application/octet-stream"));
    assert_eq!(body_bytes(plan.body), b"license text".to_vec());
}

#[test]
fn unmatched_path_delivers_spa_entry_document() {
    let store = bundle();
    let plan = store.serve("/dashboard/settings");
    assert_eq!(plan.status, 200);
    assert_eq!(plan.content_type.as_deref(), Some("text/html"));
    assert_eq!(body_bytes(plan.body), b"<html>shell</html>".to_vec());
}

#[test]
fn nested_unmatched_path_delivers_spa_entry_document() {
    let store = bundle();
    let plan = store.serve("/a/b/c");
    assert_eq!(plan.status, 200);
    assert_eq!(plan.content_type.as_deref(), Some("text/html"));
    assert_eq!(body_bytes(plan.body), b"<html>shell</html>".to_vec());
}

#[test]
fn root_path_delivers_spa_entry_document() {
    let store = bundle();
    let plan = store.serve("/");
    assert_eq!(plan.status, 200);
    assert_eq!(plan.content_type.as_deref(), Some("text/html"));
    assert_eq!(body_bytes(plan.body), b"<html>shell</html>".to_vec());
}

#[test]
fn empty_bundle_is_the_only_genuine_not_found() {
    let store = AssetStore::new();
    let plan = store.serve("/anything");
    assert_eq!(plan.status, 404);
    assert_eq!(plan.content_type.as_deref(), Some("text/plain"));
    match plan.body {
        BodyData::Text(t) => assert_eq!(t, "UI assets not found"),
        BodyData::Bytes(_) => panic!("the not-found body is text"),
    }
}

#[test]
fn duplicate_asset_path_is_refused() {
    let mut store = AssetStore::new();
    assert!(store.add(String::from("index.html"), b"a".to_vec()));
    assert!(!store.add(String::from("index.html"), b"b".to_vec()));
}
