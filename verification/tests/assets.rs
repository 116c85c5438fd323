use markhola::assets::{
    asset_request_route, asset_root_directory, asset_route, confine_to_root, is_escaping_path, is_markdown_path,
    local_asset_content_type, new_registry, parse_u64, register_document, unregister_document,
    AssetAccessError, AssetIoError,
};

#[test]
fn resolves_assets_only_within_the_registered_document_directory() {
    let mut registry = new_registry();
    let root = asset_root_directory("/tmp/markhola-asset-access/note.md").unwrap();
    assert_eq!(root, "/tmp/markhola-asset-access");
    register_document(&mut registry, 7, root.clone());

    assert_eq!(
        registry.asset_request_target(7, "image.png"),
        Ok((root.clone(), "/tmp/markhola-asset-access/image.png".to_string()))
    );
    assert_eq!(
        registry.asset_request_target(7, "../outside.png"),
        Err(AssetAccessError::Forbidden)
    );
    assert_eq!(registry.asset_request_target(7, "/etc/passwd"), Err(AssetAccessError::Forbidden));

    unregister_document(&mut registry, 7);
    assert_eq!(
        registry.asset_request_target(7, "image.png"),
        Err(AssetAccessError::UnknownDocument)
    );
}

#[test]
fn rejects_symlinks_that_escape_the_registered_directory() {
    // The file system resolved "escape.png" to a file outside the registered directory.
    assert_eq!(
        confine_to_root("/tmp/outside/secret.png".to_string(), "/tmp/root"),
        Err(AssetAccessError::Forbidden)
    );
    assert_eq!(
        confine_to_root("/tmp/root/images/a.png".to_string(), "/tmp/root"),
        Ok("/tmp/root/images/a.png".to_string())
    );
    assert_eq!(
        confine_to_root("/tmp/rootless/a.png".to_string(), "/tmp/root"),
        Err(AssetAccessError::Forbidden)
    );
}

#[test]
fn escaping_paths_are_recognised_by_their_components() {
    assert!(is_escaping_path(""));
    assert!(is_escaping_path("/abs.png"));
    assert!(is_escaping_path(".."));
    assert!(is_escaping_path("a/../../b.png"));
    assert!(is_escaping_path("a/.."));
    assert!(!is_escaping_path("a/..b/c.png"));
    assert!(!is_escaping_path("..png"));
    assert!(!is_escaping_path("./images/a.png"));
    assert!(!is_escaping_path("images/a.png"));
}

#[test]
fn refusals_carry_their_http_status() {
    assert_eq!(AssetAccessError::Forbidden.status_code(), 403);
    assert_eq!(AssetAccessError::UnknownDocument.status_code(), 403);
    assert_eq!(AssetAccessError::Unavailable.status_code(), 503);
    assert_eq!(AssetAccessError::Io(AssetIoError::NotFound).status_code(), 404);
    assert_eq!(AssetAccessError::Io(AssetIoError::Other).status_code(), 500);
}

#[test]
fn assets_are_served_with_a_content_type_by_extension() {
    assert_eq!(local_asset_content_type("/a/b.PNG"), "image/png");
    assert_eq!(local_asset_content_type("x.jpeg"), "image/jpeg");
    assert_eq!(local_asset_content_type("x.jpg"), "image/jpeg");
    assert_eq!(local_asset_content_type("x.svg"), "image/svg+xml");
    assert_eq!(local_asset_content_type("x.css"), "text/css; charset=utf-8");
    assert_eq!(local_asset_content_type("x.js"), "application/javascript; charset=utf-8");
    assert_eq!(local_asset_content_type("x.webp"), "image/webp");
    assert_eq!(local_asset_content_type("x.gif"), "image/gif");
    assert_eq!(local_asset_content_type("README"), "application/octet-stream");
    assert_eq!(local_asset_content_type(".png"), "application/octet-stream");
}

#[test]
fn markdown_links_are_recognised() {
    assert!(is_markdown_path("file:///tmp/Notes.MD"));
    assert!(is_markdown_path("x.markdown"));
    assert!(!is_markdown_path("x.md.html"));
    assert!(!is_markdown_path("md"));
}

#[test]
fn document_numbers_parse_as_u64_does() {
    assert_eq!(parse_u64("0"), Some(0));
    assert_eq!(parse_u64("+42"), Some(42));
    assert_eq!(parse_u64("18446744073709551615"), Some(u64::MAX));
    assert_eq!(parse_u64("18446744073709551616"), None);
    assert_eq!(parse_u64("99999999999999999999x"), None);
    assert_eq!(parse_u64(""), None);
    assert_eq!(parse_u64("+"), None);
    assert_eq!(parse_u64("-1"), None);
    assert_eq!(parse_u64("1 "), None);
    for text in ["7", "007", "123456789"] {
        assert_eq!(parse_u64(text), text.parse::<u64>().ok());
    }
}

#[test]
fn asset_urls_name_a_document_and_a_relative_path() {
    assert_eq!(asset_route(Some("asset"), "/7/images/a%20b.png"), Ok((7, "images/a b.png".to_string())));
    assert_eq!(asset_route(Some("asset"), "/7/%E6%8A%80.png"), Ok((7, "技.png".to_string())));
    assert_eq!(asset_route(Some("asset"), "/7"), Ok((7, String::new())));
    assert_eq!(asset_route(Some("asset"), "/+7/a.png"), Ok((7, String::new())));
    assert_eq!(asset_route(Some("asset"), "/007/a.png"), Ok((7, String::new())));
    assert_eq!(asset_route(Some("asset"), "/x/a.png"), Err(403));
    assert_eq!(asset_route(Some("other"), "/7/a.png"), Err(403));
    assert_eq!(asset_route(None, "/7/a.png"), Err(403));
    assert_eq!(asset_route(Some("asset"), "/7/%FF.png"), Err(400));
    assert_eq!(asset_route(Some("asset"), "/7/100%"), Ok((7, "100%".to_string())));
}

#[test]
fn an_asset_request_is_routed_from_its_url() {
    assert_eq!(
        asset_request_route("markhola-file://asset/7/images/a%20b.png"),
        Some(Ok((7, "images/a b.png".to_string())))
    );
    assert_eq!(asset_request_route("markhola-file://other/7/a.png"), Some(Err(403)));
    assert_eq!(asset_request_route("markhola-file://asset/x/a.png"), Some(Err(403)));
    assert_eq!(asset_request_route("markhola-file://asset/7/%FF"), Some(Err(400)));
    assert_eq!(asset_request_route("no url at all"), None);
}

#[test]
fn rooted_and_climbing_paths_are_refused_by_their_components() {
    assert!(is_escaping_path("/etc/passwd"));
    assert!(is_escaping_path("a/b/../c.png"));
    assert!(is_escaping_path("./../a.png"));
    assert!(!is_escaping_path("a/./b.png"));
    assert!(!is_escaping_path("a//b.png"));
}
