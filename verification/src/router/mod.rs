pub mod geoip;
pub mod passthrough;
pub mod proxy;
pub mod utils;

use crate::router::geoip::{is_domestic, is_domestic_code};
use crate::text::{decimal_text, ipv4_text, ipv4_to_text, push_decimal_text};
use vstd::prelude::*;
use vstd::string::*;

verus! {

/// Port on which redirected connections are accepted.
pub const ROUTER_PORT: u16 = 3333;

/// How a redirected connection reaches its destination.
#[derive(Clone, Copy, Debug, PartialEq, Eq, Structural)]
pub enum Route {
    /// Straight to the original destination.
    Passthrough,
    /// Through the local SOCKS5 server.
    Proxy,
}

/// What was decided for a redirected connection.
pub struct RoutePlan {
    pub route: Route,
    /// Names the connection in what is logged about it.
    pub info_message: String,
}

/// A destination in the domestic country is reached directly, any other
/// through the proxy.
pub open spec fn route_of(code: Seq<char>) -> Route {
    if is_domestic_code(code) {
        Route::Passthrough
    } else {
        Route::Proxy
    }
}

/// The text that names a connection: where it comes from, where it was
/// headed, and the country of that place.
pub open spec fn info_text(src: Seq<char>, dst: Seq<char>, port: u16, place: Seq<char>) -> Seq<
    char,
> {
    "from "@ + src + ", to "@ + dst + ":"@ + decimal_text(port as nat) + " in "@ + place
}

/// Writes the text that names a connection.
pub fn info_message(src: &str, dst: &str, port: u16, place: &str) -> (text: String)
    ensures
        text@ == info_text(src@, dst@, port, place@),
{
    let mut text = String::from_str("from ");
    text.append(src);
    text.append(", to ");
    text.append(dst);
    text.append(":");
    push_decimal_text(&mut text, port as usize);
    text.append(" in ");
    text.append(place);
    text
}

/// The router: the two addresses on which it accepts redirected
/// connections, one for IPv4 destinations and one for IPv6 destinations.
pub struct Router {
    pub server_ipv4: String,
    pub server_ipv6: String,
}

impl Router {
    /// Sets the router up: it accepts on every IPv4 address and on the IPv6
    /// loopback address, on the router's port.
    pub fn new() -> (router: Router)
        ensures
            router.server_ipv4@ == "0.0.0.0:3333"@,
            router.server_ipv6@ == "[::1]:3333"@,
    {
        Router {
            server_ipv4: String::from_str("0.0.0.0:3333"),
            server_ipv6: String::from_str("[::1]:3333"),
        }
    }

    /// Decides on a connection from `src` that was headed for the IPv4
    /// destination `dst_ip:dst_port`, which the geolocation database places
    /// in the country `country_code`.
    pub fn start_for_ipv4(&self, src: &str, dst_ip: &[u8; 4], dst_port: u16, country_code: &str)
        -> (plan: RoutePlan)
        ensures
            plan.route == route_of(country_code@),
            plan.info_message@ == info_text(src@, ipv4_text(dst_ip@), dst_port, country_code@),
    {
        let dst = ipv4_to_text(dst_ip);
        let text = info_message(src, dst.as_str(), dst_port, country_code);
        let route = if is_domestic(country_code) {
            Route::Passthrough
        } else {
            Route::Proxy
        };
        RoutePlan { route, info_message: text }
    }

    /// Decides on a connection from `src` that was headed for the IPv6
    /// destination `dst_ip:dst_port`: it is passed through, whatever the
    /// destination.
    pub fn start_for_ipv6(&self, src: &str, dst_ip: &str, dst_port: u16) -> (plan: RoutePlan)
        ensures
            plan.route == Route::Passthrough,
            plan.info_message@ == info_text(
                src@,
                dst_ip@,
                dst_port,
                "Unknown(ipv6 address)"@,
            ),
    {
        let text = info_message(src, dst_ip, dst_port, "Unknown(ipv6 address)");
        RoutePlan { route: Route::Passthrough, info_message: text }
    }
}

} // verus!
