//! The `auto` command: bring the providers up to date with the caller's
//! public addresses.
use crate::resolver::{ipv4_outcome, ipv6_outcome, IpResolverError, ResolveFailure};
use crate::types::ip::{Ipv4Addr, Ipv6Addr};
use vstd::prelude::*;

verus! {

/// Update providers as defined in the configuration file.
#[derive(Debug)]
pub struct AutoCommand {}

/// Why the `auto` command failed.
#[derive(Debug)]
pub enum AutoError {
    /// Neither address could be resolved: the failure for IPv4 and the
    /// failure for IPv6.
    ResolveIp(IpResolverError, IpResolverError),
}

/// The addresses with which an update goes on. Where one family failed, its
/// failure is kept, to be reported as a warning.
#[derive(Debug)]
pub enum Resolved {
    Both(Ipv4Addr, Ipv6Addr),
    Ipv4Only(Ipv4Addr, IpResolverError),
    Ipv6Only(Ipv6Addr, IpResolverError),
}

/// The mathematical model of the outcome of the two resolutions.
pub enum ResolvedView {
    Both(Seq<u8>, Seq<u16>),
    Ipv4Only(Seq<u8>, ResolveFailure),
    Ipv6Only(Seq<u16>, ResolveFailure),
    Neither(ResolveFailure, ResolveFailure),
}

/// What the two resolutions come to: the update goes on with every address
/// that was resolved, and fails only where none was.
pub open spec fn combined(
    ipv4: Result<Seq<u8>, ResolveFailure>,
    ipv6: Result<Seq<u16>, ResolveFailure>,
) -> ResolvedView {
    match (ipv4, ipv6) {
        (Ok(a), Ok(b)) => ResolvedView::Both(a, b),
        (Ok(a), Err(e)) => ResolvedView::Ipv4Only(a, e),
        (Err(e), Ok(b)) => ResolvedView::Ipv6Only(b, e),
        (Err(e), Err(f)) => ResolvedView::Neither(e, f),
    }
}

/// The model of the outcome of [`AutoCommand::combine`].
pub open spec fn combine_outcome(r: Result<Resolved, AutoError>) -> ResolvedView {
    match r {
        Ok(Resolved::Both(a, b)) => ResolvedView::Both(a@, b@),
        Ok(Resolved::Ipv4Only(a, e)) => ResolvedView::Ipv4Only(a@, e@),
        Ok(Resolved::Ipv6Only(b, e)) => ResolvedView::Ipv6Only(b@, e@),
        Err(AutoError::ResolveIp(e, f)) => ResolvedView::Neither(e@, f@),
    }
}

impl AutoCommand {
    /// Decides how the update goes on after both families were resolved.
    pub fn combine(
        &self,
        ipv4: Result<Ipv4Addr, IpResolverError>,
        ipv6: Result<Ipv6Addr, IpResolverError>,
    ) -> (r: Result<Resolved, AutoError>)
        ensures
            combine_outcome(r) == combined(ipv4_outcome(ipv4), ipv6_outcome(ipv6)),
            r is Err <==> ipv4 is Err && ipv6 is Err,
    {
        match ipv4 {
            Ok(a) => match ipv6 {
                Ok(b) => Ok(Resolved::Both(a, b)),
                Err(e) => Ok(Resolved::Ipv4Only(a, e)),
            },
            Err(e) => match ipv6 {
                Ok(b) => Ok(Resolved::Ipv6Only(b, e)),
                Err(f) => Err(AutoError::ResolveIp(e, f)),
            },
        }
    }
}

} // verus!
