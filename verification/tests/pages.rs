use nl_cube::pages::{
    build_template_error_page, build_template_missing_page, content_type_from,
    static_asset_key, static_content_type, INDEX_MISSING_PAGE,
};

#[test]
fn asset_keys_lose_leading_slashes() {
    assert_eq!(static_asset_key("/css/site.css"), "css/site.css");
    assert_eq!(static_asset_key("///a//b"), "a//b");
    assert_eq!(static_asset_key("index.html"), "index.html");
    assert_eq!(static_asset_key("//"), "");
    assert_eq!(static_asset_key(""), "");
}

#[test]
fn content_types_go_by_extension() {
    assert_eq!(static_content_type("index.html"), "text/html");
    assert_eq!(static_content_type("css/site.CSS"), "text/css");
    assert_eq!(static_content_type("data/file.json"), "application/json");
    assert_eq!(static_content_type("noextension"), "application/octet-stream");
    assert_eq!(static_content_type("file.unknown_kind_of_file"), "application/octet-stream");
    assert_eq!(static_content_type("file."), "application/octet-stream");
    assert_eq!(static_content_type(".hidden"), "application/octet-stream");
}

#[test]
fn guesses_are_taken_or_defaulted() {
    assert_eq!(content_type_from(Some("image/png".to_string())), "image/png");
    assert_eq!(content_type_from(None), "application/octet-stream");
}

#[test]
fn failure_pages_say_what_failed() {
    assert_eq!(build_template_error_page("bad loop"), "<h1>Template Error</h1><p>bad loop</p>");
    assert_eq!(
        build_template_missing_page("error.html", "not found"),
        "<h1>Template Not Found</h1><p>error.html: not found</p>"
    );
    assert_eq!(
        INDEX_MISSING_PAGE,
        "<html><body><h1>NL-Cube</h1><p>Error: index.html not found</p></body></html>"
    );
}
