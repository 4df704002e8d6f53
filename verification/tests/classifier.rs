use sv2_ui::routes::{Registry, RouteClass};

fn two_backend_registry() -> Registry {
    let mut reg = Registry::new();
    assert!(reg.add(String::from("translator"), "http://127.0.0.1:9092"));
    assert!(reg.add(String::from("jdc"), "http://127.0.0.1:9091"));
    reg
}

#[test]
fn health_path_is_health() {
    let reg = two_backend_registry();
    assert!(matches!(reg.classify("/health"), RouteClass::Health));
}

#[test]
fn prefixed_path_is_proxy_with_remainder() {
    let reg = two_backend_registry();
    match reg.classify("/translator-api/stats") {
        RouteClass::Proxy { index, remainder } => {
            assert_eq!(index, 0);
            assert_eq!(remainder, "/stats");
        }
        _ => panic!("expected a proxy classification"),
    }
    match reg.classify("/jdc-api/v1/jobs") {
        RouteClass::Proxy { index, remainder } => {
            assert_eq!(index, 1);
            assert_eq!(remainder, "/v1/jobs");
        }
        _ => panic!("expected a proxy classification"),
    }
}

#[test]
fn bare_separator_after_pattern_keeps_slash_remainder() {
    let reg = two_backend_registry();
    match reg.classify("/translator-api/") {
        RouteClass::Proxy { index, remainder } => {
            assert_eq!(index, 0);
            assert_eq!(remainder, "/");
        }
        _ => panic!("expected a proxy classification"),
    }
}

#[test]
fn pattern_without_separator_is_static() {
    let reg = two_backend_registry();
    assert!(matches!(reg.classify("/translator-api"), RouteClass::AssetRequest));
}

#[test]
fn unrelated_paths_are_static() {
    let reg = two_backend_registry();
    assert!(matches!(reg.classify("/"), RouteClass::AssetRequest));
    assert!(matches!(reg.classify("/index.html"), RouteClass::AssetRequest));
    assert!(matches!(reg.classify("/dashboard/settings"), RouteClass::AssetRequest));
    assert!(matches!(reg.classify("/translator-apix/y"), RouteClass::AssetRequest));
}

#[test]
fn empty_registry_classifies_everything_static() {
    let reg = Registry::new();
    assert!(matches!(reg.classify("/translator-api/stats"), RouteClass::AssetRequest));
    assert!(matches!(reg.classify("/health"), RouteClass::Health));
}

#[test]
fn overlapping_prefixes_resolve_first_registered_wins() {
    // Two prefixes whose patterns can both claim one path is a configuration
    // error; the classifier still resolves it deterministically in favor of
    // the earlier registration.
    let mut reg = Registry::new();
    assert!(reg.add(String::from("translator"), "http://a:1"));
    assert!(reg.add(String::from("translator-api/v1"), "http://b:2"));
    match reg.classify("/translator-api/v1-api/jobs") {
        RouteClass::Proxy { index, remainder } => {
            assert_eq!(index, 0);
            assert_eq!(remainder, "/v1-api/jobs");
        }
        _ => panic!("expected a proxy classification"),
    }
}

#[test]
fn duplicate_prefix_is_refused() {
    let mut reg = Registry::new();
    assert!(reg.add(String::from("translator"), "http://a:1"));
    assert!(!reg.add(String::from("translator"), "http://b:2"));
}

#[test]
fn base_url_trailing_slashes_are_stripped() {
    let mut reg = Registry::new();
    assert!(reg.add(String::from("translator"), "http://127.0.0.1:9092///"));
    assert_eq!(reg.routes[0].base_url, "http://127.0.0.1:9092");
}
