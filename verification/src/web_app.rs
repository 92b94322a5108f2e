use vstd::prelude::*;
use crate::config::HostContext;
use crate::routes::RouteBuildError;

verus! {

/// A web app the host can serve: it is built once per supervised run from
/// the run's context, before serving starts, and then hands the host its
/// routing table. The host treats the table as opaque and only passes it to
/// the listener.
pub trait WebApp: Sized {
    /// Builds a new instance from the run's context.
    fn create(context: &HostContext) -> Self;

    /// The routing table this app serves, or the router's rejection of it.
    fn routes(&mut self) -> Result<poem::Route, RouteBuildError>;
}

} // verus!
