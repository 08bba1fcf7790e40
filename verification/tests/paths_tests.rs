use tennis::content_type::content_type_from_path;
use tennis::paths::build_file_path;
use tennis::paths::directory_index_path;
use tennis::paths::extension;
use tennis::paths::is_html_file;
use tennis::paths::path_is_hidden;
use tennis::paths::trim_request_path;

#[test]
fn extension_of_plain_file() {
    assert_eq!(extension("site/index.html"), Some("html"));
    assert_eq!(extension("a/b/c.tar.gz"), Some("gz"));
    assert_eq!(extension("script.js"), Some("js"));
}

#[test]
fn extension_of_dotless_or_hidden_name() {
    assert_eq!(extension("Makefile"), None);
    assert_eq!(extension("site/.gitignore"), None);
    assert_eq!(extension("a.b/c"), None);
}

#[test]
fn extension_of_trailing_dot() {
    assert_eq!(extension("foo."), Some(""));
}

#[test]
fn html_detection() {
    assert!(is_html_file("site/index.html"));
    assert!(is_html_file("deep/ly/nested/page.html"));
    assert!(!is_html_file("site/index.htm"));
    assert!(!is_html_file("site/html"));
    assert!(!is_html_file("style.css"));
}

#[test]
fn content_types_stated_explicitly() {
    assert_eq!(
        content_type_from_path("img/logo.svg"),
        Some("image/svg+xml".to_string())
    );
    assert_eq!(
        content_type_from_path("js/app.js"),
        Some("application/javascript".to_string())
    );
    assert_eq!(content_type_from_path("index.html"), None);
    assert_eq!(content_type_from_path("README"), None);
}

#[test]
fn hidden_segments() {
    assert!(path_is_hidden(".git"));
    assert!(path_is_hidden("site/.git/HEAD"));
    assert!(path_is_hidden("site/.index.html.swp"));
    assert!(!path_is_hidden("site/index.html"));
    assert!(!path_is_hidden("site/v1.2/file.txt"));
    assert!(!path_is_hidden(""));
}

#[test]
fn request_path_trimming() {
    assert_eq!(trim_request_path("/index.html"), "index.html");
    assert_eq!(trim_request_path("//..//etc/passwd"), "etc/passwd");
    assert_eq!(trim_request_path("plain"), "plain");
    assert_eq!(trim_request_path("/"), "");
}

#[test]
fn file_path_building() {
    assert_eq!(build_file_path("/index.html", "site"), "site/index.html");
    assert_eq!(build_file_path("/a/b.css", "site/"), "site/a/b.css");
    assert_eq!(build_file_path("/", "site"), "site/");
    assert_eq!(build_file_path("/x", ""), "x");
}

#[test]
fn directory_requests_get_index() {
    assert_eq!(directory_index_path("site/docs"), "site/docs/index.html");
    assert_eq!(directory_index_path("site/"), "site/index.html");
}
