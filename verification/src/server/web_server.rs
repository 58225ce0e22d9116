use vstd::prelude::*;
use vstd::string::StringExecFns;
use crate::config::dataset::AppConfig;
use crate::config::security::HttpsView;

verus! {

/// The port of the plain HTTP listener.
pub const HTTP_PORT: u16 = 8080;

/// The port of the TLS listener.
pub const HTTPS_PORT: u16 = 8443;

/// What answers the requests of a route.
#[derive(Debug, Clone, Copy, PartialEq, Eq, Structural)]
pub enum Endpoint {
    /// The static example payload.
    JsonExample,
    /// A dataset's table as a columnar stream.
    ArrowStream,
    /// The list of dataset names.
    Datasets,
    /// A frontend asset.
    EmbeddedAsset,
}

/// One route of the server.
#[derive(Debug)]
pub struct Route {
    pub pattern: String,
    pub endpoint: Endpoint,
}

/// How the listener is secured.
#[derive(Debug)]
pub enum Transport {
    Plain,
    /// TLS with the certificate chain and the private key read from these
    /// files.
    Tls { cert_path: String, key_path: String },
}

/// How the server is to be started.
#[derive(Debug)]
pub struct ServerPlan {
    /// The address to bind.
    pub host: String,
    pub port: u16,
    pub transport: Transport,
    /// Whether connections are kept alive as the operating system sets it.
    pub os_keep_alive: bool,
    /// The routes, in the order of registration; the first that matches a
    /// request answers it.
    pub routes: Vec<Route>,
    /// The line to print before the server starts.
    pub announcement: String,
}

/// A route in specifications.
pub struct RouteView {
    pub pattern: Seq<char>,
    pub endpoint: Endpoint,
}

impl View for Route {
    type V = RouteView;

    open spec fn view(&self) -> RouteView {
        RouteView { pattern: self.pattern@, endpoint: self.endpoint }
    }
}

/// The routes of the server: the three API routes, then the route that
/// catches every other path and serves the frontend.
pub open spec fn route_table() -> Seq<RouteView> {
    seq![
        RouteView { pattern: "/api/data/json"@, endpoint: Endpoint::JsonExample },
        RouteView { pattern: "/api/data/arrow/{dataset}"@, endpoint: Endpoint::ArrowStream },
        RouteView { pattern: "/api/datasets"@, endpoint: Endpoint::Datasets },
        RouteView { pattern: "/{filename:.*}"@, endpoint: Endpoint::EmbeddedAsset },
    ]
}

/// Whether `plan` starts the server as the HTTPS settings ask: over TLS on
/// `HTTPS_PORT` with the configured certificate and key where HTTPS is
/// enabled, else in the clear on `HTTP_PORT` with the operating system's
/// keep-alive; on every interface either way.
pub open spec fn starts_as_configured(plan: &ServerPlan, https: HttpsView) -> bool {
    &&& plan.host@ == "0.0.0.0"@
    &&& plan.routes.deep_view() == route_table()
    &&& if https.enabled {
        &&& plan.port == HTTPS_PORT
        &&& plan.transport matches Transport::Tls { cert_path, key_path }
        &&& cert_path@ == https.cert_path
        &&& key_path@ == https.key_path
        &&& !plan.os_keep_alive
        &&& plan.announcement@ == "Starting HTTPS server on port 8443"@
    } else {
        &&& plan.port == HTTP_PORT
        &&& plan.transport is Plain
        &&& plan.os_keep_alive
        &&& plan.announcement@ == "Starting HTTP server on port 8080"@
    }
}

impl DeepView for Route {
    type V = RouteView;

    open spec fn deep_view(&self) -> RouteView {
        self@
    }
}

fn routes() -> (routes: Vec<Route>)
    ensures
        routes.deep_view() == route_table(),
{
    let mut routes: Vec<Route> = Vec::new();
    routes.push(
        Route { pattern: String::from_str("/api/data/json"), endpoint: Endpoint::JsonExample },
    );
    routes.push(
        Route {
            pattern: String::from_str("/api/data/arrow/{dataset}"),
            endpoint: Endpoint::ArrowStream,
        },
    );
    routes.push(Route { pattern: String::from_str("/api/datasets"), endpoint: Endpoint::Datasets });
    routes.push(
        Route { pattern: String::from_str("/{filename:.*}"), endpoint: Endpoint::EmbeddedAsset },
    );
    assert(routes.deep_view() =~= route_table());
    routes
}

/// Decides how the server is started for a configuration: the listener, its
/// transport, and the routes.
pub fn run_server(config: &AppConfig) -> (plan: ServerPlan)
    ensures
        starts_as_configured(&plan, config@.security.https),
{
    let https = &config.security.https;
    if https.enabled {
        ServerPlan {
            host: String::from_str("0.0.0.0"),
            port: HTTPS_PORT,
            transport: Transport::Tls {
                cert_path: https.cert_path.clone(),
                key_path: https.key_path.clone(),
            },
            os_keep_alive: false,
            routes: routes(),
            announcement: String::from_str("Starting HTTPS server on port 8443"),
        }
    } else {
        ServerPlan {
            host: String::from_str("0.0.0.0"),
            port: HTTP_PORT,
            transport: Transport::Plain,
            os_keep_alive: true,
            routes: routes(),
            announcement: String::from_str("Starting HTTP server on port 8080"),
        }
    }
}

} // verus!
