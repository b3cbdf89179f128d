use zipstream::server::{not_found, rocket, RequestMedia};

fn media(label: &str, xml: bool, html: bool) -> RequestMedia {
    RequestMedia { label: label.to_string(), xml, html }
}

#[test]
fn unmatched_path_without_media_points_at_stream_route() {
    let body = not_found(None, "/bogus");
    assert_eq!(
        body,
        "<p>Sorry, '/bogus' is an invalid path! Try /stream/images; instead.</p>"
    );
}

#[test]
fn unsupported_media_is_named_in_message() {
    let m = media("text/plain; charset=utf-8", false, false);
    let body = not_found(Some(&m), "/whatever");
    assert_eq!(
        body,
        "<p>'text/plain; charset=utf-8' requests are not supported.</p>"
    );
}

#[test]
fn html_media_still_gets_path_message() {
    let m = media("text/html; charset=utf-8", false, true);
    let body = not_found(Some(&m), "/nope");
    assert_eq!(
        body,
        "<p>Sorry, '/nope' is an invalid path! Try /stream/images; instead.</p>"
    );
}

#[test]
fn xml_media_still_gets_path_message() {
    let m = media("text/xml", true, false);
    let body = not_found(Some(&m), "/gone");
    assert_eq!(
        body,
        "<p>Sorry, '/gone' is an invalid path! Try /stream/images; instead.</p>"
    );
}

#[test]
fn server_config_mounts_stream_route_at_root() {
    let c = rocket();
    assert_eq!(c.mount_base, "/");
    assert_eq!(c.stream_route, "/stream/images");
    assert_eq!(c.catcher_base, "/");
}
