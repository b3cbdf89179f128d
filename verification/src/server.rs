//! The HTTP surface's decisions, as plain functions.
//!
//! The surrounding server owns sockets, routing tables and response types;
//! what it decides — which route streams the archive, and what a catch-all
//! handler says for an unmatched path — is computed here from plain values,
//! so the wording and the wiring are pinned down by contracts.

use vstd::prelude::*;

verus! {

/// Relies on `alloc::string::String::push_str`: appends the given slice's
/// characters onto the end of the string.
pub assume_specification[ String::push_str ](s: &mut String, other: &str)
    ensures
        final(s)@ == old(s)@ + other@,
;

/// What a request asked for, as far as the catch-all handler cares: the
/// media type's printed form and whether it is an XML or HTML kind.
pub struct RequestMedia {
    pub label: String,
    pub xml: bool,
    pub html: bool,
}

/// The message for a request whose media type is not served.
pub open spec fn unsupported_message(label: Seq<char>) -> Seq<char> {
    "<p>'"@ + label + "' requests are not supported.</p>"@
}

/// The message for a path that matches no route.
pub open spec fn invalid_path_message(uri: Seq<char>) -> Seq<char> {
    "<p>Sorry, '"@ + uri + "' is an invalid path! Try /stream/images; instead.</p>"@
}

/// The catch-all handler's HTML body: a request that asked for a media type
/// other than XML or HTML is told the type is not supported; every other
/// unmatched request is pointed at the streaming route.
pub fn not_found(media: Option<&RequestMedia>, uri: &str) -> (r: String)
    ensures
        r@ == (match media {
            Some(m) => if !(m.xml || m.html) {
                unsupported_message(m.label@)
            } else {
                invalid_path_message(uri@)
            },
            None => invalid_path_message(uri@),
        }),
{
    match media {
        Some(m) if !(m.xml || m.html) => {
            let mut s = String::new();
            s.push_str("<p>'");
            s.push_str(m.label.as_str());
            s.push_str("' requests are not supported.</p>");
            proof {
                assert(s@ =~= unsupported_message(m.label@));
            }
            s
        },
        _ => {
            let mut s = String::new();
            s.push_str("<p>Sorry, '");
            s.push_str(uri);
            s.push_str("' is an invalid path! Try /stream/images; instead.</p>");
            proof {
                assert(s@ =~= invalid_path_message(uri@));
            }
            s
        },
    }
}

/// Where the server hangs its pieces: the streaming endpoint's route and
/// the base paths the route and the catch-all handler are registered under.
pub struct ServerConfig {
    pub mount_base: String,
    pub stream_route: String,
    pub catcher_base: String,
}

/// The server wiring: one route that streams the archive, mounted at the
/// root, and the catch-all handler registered at the root.
pub fn rocket() -> (c: ServerConfig)
    ensures
        c.mount_base@ == "/"@,
        c.stream_route@ == "/stream/images"@,
        c.catcher_base@ == "/"@,
{
    ServerConfig {
        mount_base: "/".to_owned(),
        stream_route: "/stream/images".to_owned(),
        catcher_base: "/".to_owned(),
    }
}

} // verus!
