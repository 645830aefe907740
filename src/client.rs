//! Which store endpoint a process talks to.
use vstd::prelude::*;

verus! {

/// The store endpoint a process uses.
#[derive(Debug, PartialEq, Eq, Structural, Clone, Copy)]
pub enum StoreEndpoint {
    /// The local test store, on the loopback address.
    Local,
    /// The production store, in its fixed region.
    Live,
}

/// The endpoint chosen for the mode flag `mode`: the live store exactly
/// when the flag reads `live`, the local store otherwise (also when it is
/// unset).
pub open spec fn endpoint_for(mode: Option<Seq<char>>) -> StoreEndpoint {
    if mode == Some("live"@) {
        StoreEndpoint::Live
    } else {
        StoreEndpoint::Local
    }
}

/// Chooses the endpoint for the mode flag `mode` (`None` when unset).
pub fn select_endpoint(mode: Option<String>) -> (r: StoreEndpoint)
    ensures
        r == endpoint_for(
            match mode {
                Some(m) => Some(m@),
                None => None,
            },
        ),
        r == StoreEndpoint::Live <==> (mode is Some && mode->0@ == "live"@),
{
    match mode {
        Some(m) => {
            if m == String::from_str("live") {
                StoreEndpoint::Live
            } else {
                StoreEndpoint::Local
            }
        },
        None => StoreEndpoint::Local,
    }
}

impl StoreEndpoint {
    /// The region name the client is built for.
    pub fn region(&self) -> (r: &'static str)
        ensures
            r@ == (match self {
                StoreEndpoint::Local => "us-east-1"@,
                StoreEndpoint::Live => "eu-west-2"@,
            }),
    {
        match self {
            StoreEndpoint::Local => "us-east-1",
            StoreEndpoint::Live => "eu-west-2",
        }
    }

    /// The address the client is pointed at, where the region's own
    /// address is not used.
    pub fn address(&self) -> (r: Option<&'static str>)
        ensures
            match self {
                StoreEndpoint::Local => r is Some && r->0@ == "http://localhost:8000"@,
                StoreEndpoint::Live => r is None,
            },
    {
        match self {
            StoreEndpoint::Local => Some("http://localhost:8000"),
            StoreEndpoint::Live => None,
        }
    }
}

} // verus!
