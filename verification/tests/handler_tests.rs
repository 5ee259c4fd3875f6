use spa_assets::resolver::{candidate_key, handle};
use spa_assets::store::AssetStore;

const LONG_CACHE: &str = "public, max-age=31536000, immutable";
const SHELL: &[u8] = b"<!doctype html><div id=app></div>";

fn store_with(entries: &[(&str, &[u8])]) -> AssetStore {
    let mut store = AssetStore::new();
    for (path, data) in entries {
        store.insert(path.as_bytes().to_vec(), data.to_vec());
    }
    store
}

fn shell_store() -> AssetStore {
    store_with(&[
        ("index.html", SHELL),
        ("app.css", b"body{margin:0}"),
        ("assets/app.a1b2.js", b"console.log(1)"),
    ])
}

#[test]
fn route_like_paths_serve_shell() {
    let store = shell_store();
    let base = handle(&store, "");
    for raw in ["/dashboard", "/users/42", "dashboard", "/a/b/c", "/"] {
        let r = handle(&store, raw);
        assert_eq!(r.status, 200);
        assert_eq!(r.body, base.body);
    }
}

#[test]
fn empty_and_root_identical() {
    let store = shell_store();
    let empty = handle(&store, "");
    let root = handle(&store, "/");
    assert_eq!(empty, root);
}

#[test]
fn stored_asset_served_exactly() {
    let store = shell_store();
    let r = handle(&store, "/app.css");
    assert_eq!(r.status, 200);
    assert_eq!(r.body, b"body{margin:0}".to_vec());
    assert_eq!(r.content_type, "text/css");
    assert_eq!(r.cache_control, LONG_CACHE);

    let nested = handle(&store, "/assets/app.a1b2.js");
    assert_eq!(nested.status, 200);
    assert_eq!(nested.body, b"console.log(1)".to_vec());
    assert_eq!(nested.cache_control, LONG_CACHE);
}

#[test]
fn shell_paths_no_cache() {
    let store = shell_store();
    let by_name = handle(&store, "/index.html");
    let by_root = handle(&store, "");
    assert_eq!(by_name.body, by_root.body);
    assert_eq!(by_name.cache_control, "no-cache");
    assert_eq!(by_root.cache_control, "no-cache");
}

#[test]
fn missing_file_serves_shell() {
    let store = shell_store();
    let r = handle(&store, "/missing.png");
    assert_eq!(r.status, 200);
    assert_eq!(r.body, SHELL.to_vec());
    assert_eq!(r.cache_control, "no-cache");
}

#[test]
fn no_shell_not_found() {
    let store = store_with(&[("app.css", b"body{margin:0}")]);
    let r = handle(&store, "");
    assert_eq!(r.status, 404);
    assert_eq!(r.body, b"Not Found".to_vec());
    assert_eq!(r.content_type, "text/plain; charset=utf-8");

    let miss = handle(&store, "/missing.png");
    assert_eq!(miss.status, 404);
    assert_eq!(miss.body, b"Not Found".to_vec());
}

#[test]
fn percent_encoded_path_decoded() {
    let store = store_with(&[("index.html", SHELL), ("my file.css", b".a{color:red}")]);
    let r = handle(&store, "/my%20file.css");
    assert_eq!(r.status, 200);
    assert_eq!(r.body, b".a{color:red}".to_vec());
    assert_eq!(r.content_type, "text/css");
}

#[test]
fn unknown_extension_octet_stream() {
    let store = store_with(&[("index.html", SHELL), ("blob.qqq", b"\x00\x01\x02")]);
    let r = handle(&store, "/blob.qqq");
    assert_eq!(r.status, 200);
    assert_eq!(r.content_type, "application/octet-stream");
    assert_eq!(r.body, b"\x00\x01\x02".to_vec());
}

#[test]
fn only_one_leading_slash_stripped() {
    let store = shell_store();
    let r = handle(&store, "//app.css");
    assert_eq!(r.status, 200);
    assert_eq!(r.body, SHELL.to_vec());
}

#[test]
fn traversal_like_path_matches_nothing() {
    let store = shell_store();
    let r = handle(&store, "/../app.css");
    assert_eq!(r.status, 200);
    assert_eq!(r.body, SHELL.to_vec());

    let bare = store_with(&[("app.css", b"body{margin:0}")]);
    let miss = handle(&bare, "/../app.css");
    assert_eq!(miss.status, 404);
}

#[test]
fn candidate_key_normalization() {
    assert_eq!(candidate_key(&b"".to_vec()), b"index.html".to_vec());
    assert_eq!(candidate_key(&b"/".to_vec()), b"index.html".to_vec());
    assert_eq!(candidate_key(&b"/app.css".to_vec()), b"app.css".to_vec());
    assert_eq!(candidate_key(&b"app.css".to_vec()), b"app.css".to_vec());
    assert_eq!(candidate_key(&b"/dashboard".to_vec()), b"index.html".to_vec());
    assert_eq!(candidate_key(&b"//app.css".to_vec()), b"/app.css".to_vec());
}
