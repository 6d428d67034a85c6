use portfolio_site::routes::{asset_file_path, is_safe_relative, route, AssetDir, Route};

fn asset(method: &str, path: &str) -> Option<(String, String)> {
    match route(method, path) {
        Route::Asset(d, rel) => Some((asset_file_path(&d, &rel), rel)),
        _ => None,
    }
}

#[test]
fn unknown_path_is_not_found() {
    assert!(matches!(route("GET", "/nonexistent-path"), Route::NotFound));
}

#[test]
fn index_paths() {
    assert!(matches!(route("GET", "/"), Route::Index));
    assert!(matches!(route("GET", "/index.html"), Route::Index));
    assert!(matches!(route("POST", "/"), Route::NotFound));
    assert!(matches!(route("GET", ""), Route::NotFound));
}

#[test]
fn asset_directories() {
    assert_eq!(
        asset("GET", "/images/me.png"),
        Some(("./templates/images/me.png".to_string(), "me.png".to_string()))
    );
    assert_eq!(
        asset("GET", "/css/site/main.css"),
        Some(("./templates/css/site/main.css".to_string(), "site/main.css".to_string()))
    );
    assert_eq!(
        asset("GET", "/fonts/a.woff2"),
        Some(("./templates/fonts/a.woff2".to_string(), "a.woff2".to_string()))
    );
    assert!(matches!(route("GET", "/css/x.css"), Route::Asset(AssetDir::Css, _)));
}

#[test]
fn traversal_is_not_found() {
    assert!(matches!(route("GET", "/images/../Cargo.toml"), Route::NotFound));
    assert!(matches!(route("GET", "/images/a/../../secret"), Route::NotFound));
    assert!(matches!(route("GET", "/css/..\\secret"), Route::NotFound));
    assert!(matches!(route("GET", "/fonts//etc/passwd"), Route::NotFound));
    assert!(matches!(route("GET", "/images/"), Route::NotFound));
    assert!(matches!(route("GET", "/images"), Route::NotFound));
    assert!(matches!(route("GET", "/images/.hidden"), Route::NotFound));
    assert!(matches!(route("GET", "/images/dir/"), Route::NotFound));
}

#[test]
fn relative_path_rules() {
    assert!(is_safe_relative("a.png"));
    assert!(is_safe_relative("a/b.c"));
    assert!(is_safe_relative("a..b"));
    assert!(!is_safe_relative(""));
    assert!(!is_safe_relative(".."));
    assert!(!is_safe_relative("."));
    assert!(!is_safe_relative("/abs"));
    assert!(!is_safe_relative("a/./b"));
}
