use vstd::prelude::*;

verus! {

/// The service's routing table: the base path and the one route the program
/// mounts under it.  The program builds its HTTP server from this value;
/// the paths themselves are the decision made here.
#[derive(Clone, Copy, Debug)]
pub struct ServiceRoutes {
    pub base: &'static str,
    pub calculate_volume_path: &'static str,
}

/// The base path every route is mounted under.
pub open spec fn base_path() -> Seq<char> {
    "/"@
}

/// The path of the volume-calculation route.
pub open spec fn calculate_volume_path() -> Seq<char> {
    "/calculate_volume"@
}

/// The routing decision of the program: exactly one route, the
/// volume-calculation route, mounted at the root.
pub fn rocket() -> (r: ServiceRoutes)
    ensures
        r.base@ == base_path(),
        r.calculate_volume_path@ == calculate_volume_path(),
{
    ServiceRoutes { base: "/", calculate_volume_path: "/calculate_volume" }
}

} // verus!
