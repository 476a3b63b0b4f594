//! The endpoints of the relay server.

use vstd::prelude::*;
use crate::ports::PortRegistry;

verus! {

/// Where a request to the relay server goes.
#[derive(Clone, Copy, Debug, PartialEq, Eq, Structural)]
pub enum Route {
    /// The upload channel.
    Upload,
    /// The download channel.
    Download,
    /// The liveness root.
    Root,
    /// The query for the node worker's port.
    NodePort,
    /// The query for the gateway worker's port.
    GatewayPort,
    /// No endpoint.
    NotFound,
}

/// The first path segment that leads to a route; the root has none.
pub open spec fn segment_of(route: Route) -> Option<Seq<char>> {
    match route {
        Route::Upload => Some("upload"@),
        Route::Download => Some("download"@),
        Route::NodePort => Some("getNodePort"@),
        Route::GatewayPort => Some("getGatewayPort"@),
        Route::Root => None,
        Route::NotFound => None,
    }
}

/// The route of a request by its first path segment (`None` for the empty
/// path).
pub open spec fn route_for(segment: Option<Seq<char>>) -> Route {
    match segment {
        None => Route::Root,
        Some(s) => if s == "upload"@ {
            Route::Upload
        } else if s == "download"@ {
            Route::Download
        } else if s == "getNodePort"@ {
            Route::NodePort
        } else if s == "getGatewayPort"@ {
            Route::GatewayPort
        } else {
            Route::NotFound
        },
    }
}

/// The first path segment that leads to a route.
pub fn route_segment(route: Route) -> (r: Option<&'static str>)
    ensures
        r is Some == segment_of(route) is Some,
        r matches Some(s) ==> Some(s@) == segment_of(route),
{
    match route {
        Route::Upload => Some("upload"),
        Route::Download => Some("download"),
        Route::NodePort => Some("getNodePort"),
        Route::GatewayPort => Some("getGatewayPort"),
        Route::Root => None,
        Route::NotFound => None,
    }
}

/// Whether two texts are the same.
fn same_text(a: &str, b: &str) -> (r: bool)
    ensures
        r == (a@ == b@),
{
    String::from_str(a) == String::from_str(b)
}

/// The route of a request by its first path segment (`None` for the empty
/// path).
pub fn route_of(segment: Option<&str>) -> (r: Route)
    ensures
        r == route_for(
            match segment {
                Some(s) => Some(s@),
                None => None,
            },
        ),
{
    match segment {
        None => Route::Root,
        Some(s) => {
            if same_text(s, "upload") {
                Route::Upload
            } else if same_text(s, "download") {
                Route::Download
            } else if same_text(s, "getNodePort") {
                Route::NodePort
            } else if same_text(s, "getGatewayPort") {
                Route::GatewayPort
            } else {
                Route::NotFound
            }
        },
    }
}

/// The port that a port query answers with: the node's or the gateway's,
/// as the registry holds it. Other routes answer no port.
pub fn port_query(route: Route, ports: &PortRegistry) -> (r: Option<u16>)
    ensures
        r == (match route {
            Route::NodePort => Some(ports.node),
            Route::GatewayPort => Some(ports.gateway),
            _ => None,
        }),
{
    match route {
        Route::NodePort => Some(ports.node),
        Route::GatewayPort => Some(ports.gateway),
        _ => None,
    }
}

} // verus!
