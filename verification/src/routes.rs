//! The router served by the example back ends: three GET routes, each
//! answering with a fixed greeting.
use vstd::prelude::*;

use crate::channel::SocketAddress;

verus! {

/// A GET route that answers with a fixed text body.
#[derive(Clone, Debug)]
pub struct Route {
    pub path: String,
    pub body: String,
}

/// The greeting routes, in the order they are registered.
pub fn greeting_routes() -> (routes: Vec<Route>)
    ensures
        routes@.len() == 3,
        routes@[0].path@ == "/api/abc"@,
        routes@[0].body@ == "Hello, abc!"@,
        routes@[1].path@ == "/api/efg"@,
        routes@[1].body@ == "Hello, efg!"@,
        routes@[2].path@ == "/api/hello"@,
        routes@[2].body@ == "Hello, world!"@,
{
    let mut routes: Vec<Route> = Vec::new();
    routes.push(Route { path: String::from_str("/api/abc"), body: String::from_str("Hello, abc!") });
    routes.push(Route { path: String::from_str("/api/efg"), body: String::from_str("Hello, efg!") });
    routes.push(
        Route { path: String::from_str("/api/hello"), body: String::from_str("Hello, world!") },
    );
    routes
}

/// The address the stand-alone server listens on: port 9000 of every
/// interface (0.0.0.0).
pub fn server_address() -> (addr: SocketAddress)
    ensures
        addr.ip == 0,
        addr.port == 9000,
{
    SocketAddress { ip: 0, port: 9000 }
}

} // verus!
