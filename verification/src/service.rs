//! The proxy: what is answered to a request for a file.
//!
//! A request names an architecture, a repository and a file. The answer is
//! a temporary redirect, to a peer that has the file cached or to the
//! upstream mirror, or an internal error that carries the failure's
//! description.

pub mod peer_cache_router;

use crate::directory::distinct_hosts;
use crate::directory::entries_map;
use crate::directory::PeerDirectory;
use crate::directory::PeerEntry;
use crate::discovery::browse::AnnouncementEvent;
use crate::error::describe;
use crate::error::Error;
use crate::error::ErrorView;
use crate::service::peer_cache_router::PeerCacheRouter;
use crate::service::peer_cache_router::PeerRace;
use crate::service::peer_cache_router::ProbeReport;
use crate::service::peer_cache_router::RaceView;
use crate::service::peer_cache_router::RouteDecision;
use crate::service::peer_cache_router::RouterView;
use crate::text::ends_with;
use crate::text::str_ends_with;
use crate::upstream::resolve;
use crate::upstream::RepositoryMirrorMap;
use vstd::prelude::*;
use vstd::string::*;

verus! {

/// The status of a temporary redirect.
pub const STATUS_TEMPORARY_REDIRECT: u16 = 307;

/// The status of an internal server error.
pub const STATUS_INTERNAL_SERVER_ERROR: u16 = 500;

/// A file that peers may serve: anything but a repository's database or
/// file index, or the signature of one. Those are small and change often,
/// so they always come from upstream.
pub open spec fn is_cachable(file_name: Seq<char>) -> bool {
    &&& !ends_with(file_name, ".db"@)
    &&& !ends_with(file_name, ".files"@)
    &&& !ends_with(file_name, ".db.sig"@)
    &&& !ends_with(file_name, ".files.sig"@)
}

/// Whether peers may serve `file_name`.
pub fn is_cachable_file(file_name: &str) -> (cachable: bool)
    ensures
        cachable == is_cachable(file_name@),
{
    !str_ends_with(file_name, ".db") && !str_ends_with(file_name, ".files") && !str_ends_with(
        file_name,
        ".db.sig",
    ) && !str_ends_with(file_name, ".files.sig")
}

/// The network address from which a request came.
#[derive(Clone, Copy, Debug)]
pub enum CallerAddress {
    /// An IPv4 address: its four octets.
    V4([u8; 4]),
    /// An IPv6 address: its eight segments.
    V6([u16; 8]),
}

/// An address of this machine itself: `127.0.0.0/8`, or `::1`.
pub open spec fn is_loopback(address: CallerAddress) -> bool {
    match address {
        CallerAddress::V4(octets) => octets[0] == 127,
        CallerAddress::V6(segments) => {
            &&& segments[0] == 0
            &&& segments[1] == 0
            &&& segments[2] == 0
            &&& segments[3] == 0
            &&& segments[4] == 0
            &&& segments[5] == 0
            &&& segments[6] == 0
            &&& segments[7] == 1
        },
    }
}

/// Whether a request may use the proxy route: only one that is known to
/// come from this machine itself.
pub fn caller_is_local(caller: Option<CallerAddress>) -> (local: bool)
    ensures
        local == (caller matches Some(address) && is_loopback(address)),
{
    match caller {
        Some(CallerAddress::V4(octets)) => octets[0] == 127,
        Some(CallerAddress::V6(segments)) => segments[0] == 0 && segments[1] == 0 && segments[2]
            == 0 && segments[3] == 0 && segments[4] == 0 && segments[5] == 0 && segments[6] == 0
            && segments[7] == 1,
        None => false,
    }
}

/// The answer to a request.
#[derive(Debug)]
pub enum ProxyResponse {
    /// A temporary redirect to this address.
    Redirect(String),
    /// An internal server error with this body.
    InternalError(String),
}

/// A `ProxyResponse` with its text as a character sequence.
pub enum ResponseView {
    Redirect(Seq<char>),
    InternalError(Seq<char>),
}

impl View for ProxyResponse {
    type V = ResponseView;

    open spec fn view(&self) -> ResponseView {
        match self {
            ProxyResponse::Redirect(url) => ResponseView::Redirect(url@),
            ProxyResponse::InternalError(body) => ResponseView::InternalError(body@),
        }
    }
}

impl PartialEq for ProxyResponse {
    fn eq(&self, other: &Self) -> (same: bool) {
        match (self, other) {
            (ProxyResponse::Redirect(a), ProxyResponse::Redirect(b)) => *a == *b,
            (ProxyResponse::InternalError(a), ProxyResponse::InternalError(b)) => *a == *b,
            _ => false,
        }
    }
}

impl Eq for ProxyResponse {

}

impl vstd::std_specs::cmp::PartialEqSpecImpl for ProxyResponse {
    open spec fn obeys_eq_spec() -> bool {
        true
    }

    open spec fn eq_spec(&self, other: &Self) -> bool {
        self@ == other@
    }
}

/// The answer that a routing result is turned into: a redirect to the
/// address found, or an internal error that describes the failure.
pub open spec fn response_for(result: Result<Seq<char>, ErrorView>) -> ResponseView {
    match result {
        Ok(url) => ResponseView::Redirect(url),
        Err(error) => ResponseView::InternalError(describe(error)),
    }
}

/// The view of an answer that may not be due yet.
pub open spec fn due_response(response: Option<ProxyResponse>) -> Option<ResponseView> {
    match response {
        Some(response) => Some(response@),
        None => None,
    }
}

/// The answer that a routing result, if there is one, is turned into.
pub open spec fn response_if_settled(settled: Option<Result<Seq<char>, ErrorView>>) -> Option<
    ResponseView,
> {
    match settled {
        Some(result) => Some(response_for(result)),
        None => None,
    }
}

impl ProxyResponse {
    /// The status code of the answer.
    pub fn status(&self) -> (status: u16)
        ensures
            status == match self@ {
                ResponseView::Redirect(_) => STATUS_TEMPORARY_REDIRECT,
                ResponseView::InternalError(_) => STATUS_INTERNAL_SERVER_ERROR,
            },
    {
        match self {
            ProxyResponse::Redirect(_) => STATUS_TEMPORARY_REDIRECT,
            ProxyResponse::InternalError(_) => STATUS_INTERNAL_SERVER_ERROR,
        }
    }
}

/// Turns a routing result into the answer to the request.
pub fn service_proxy(result: Result<String, Error>) -> (response: ProxyResponse)
    ensures
        response@ == response_for(crate::error::text_result(result)),
{
    match result {
        Ok(url) => ProxyResponse::Redirect(url),
        Err(error) => ProxyResponse::InternalError(error.description()),
    }
}

/// What is due for a request: the answer, or a race among the peers.
pub enum ResponsePlan {
    /// The answer is known.
    Respond(ProxyResponse),
    /// Each of these peers is to be probed; the race holds the request.
    Probe(PeerRace, Vec<PeerEntry>),
}

/// The proxy service: a router and the answers made of its results.
pub struct ProxyService {
    router: PeerCacheRouter,
}

impl View for ProxyService {
    type V = RouterView;

    closed spec fn view(&self) -> RouterView {
        self.router@
    }
}

impl ProxyService {
    /// A service over the known peers and the configured mirrors.
    pub fn new(peer_list: PeerDirectory, upstream_urls: RepositoryMirrorMap) -> (service: Self)
        ensures
            service@ == (RouterView { peers: peer_list@, mirrors: upstream_urls@ }),
    {
        ProxyService { router: PeerCacheRouter::new(peer_list, upstream_urls) }
    }

    /// Begins to answer a request. A file that peers may not serve, and any
    /// file while no peer is known, is answered from upstream at once;
    /// otherwise every known peer is to be probed.
    pub fn generate_response(&self, arch: &str, repo: &str, file_name: &str) -> (plan:
        ResponsePlan)
        ensures
            !is_cachable(file_name@) ==> plan is Respond,
            match plan {
                ResponsePlan::Respond(response) => {
                    &&& !self@.probes(file_name@)
                    &&& response@ == response_for(
                        resolve(self@.mirrors, repo@, arch@, file_name@),
                    )
                },
                ResponsePlan::Probe(race, peers) => {
                    &&& self@.probes(file_name@)
                    &&& race@ == RaceView::begun(arch@, repo@, file_name@, peers@.len())
                    &&& distinct_hosts(peers@)
                    &&& entries_map(peers@) == self@.peers
                },
            },
    {
        match self.router.route_redirection(arch, repo, file_name) {
            RouteDecision::Settled(result) => ResponsePlan::Respond(service_proxy(result)),
            RouteDecision::Probe(race, peers) => ResponsePlan::Probe(race, peers),
        }
    }

    /// Takes the report of one probe of a race, and returns the answer to
    /// the request if the report settles the race.
    pub fn find_peer_with_cache(&mut self, race: &mut PeerRace, report: ProbeReport) -> (response:
        Option<ProxyResponse>)
        ensures
            final(self)@ == old(self)@.after_report(report@),
            final(race)@ == old(race)@.after_report(report@),
            due_response(response) == response_if_settled(
                old(self)@.answer(old(race)@, report@),
            ),
    {
        match self.router.find_peer_with_cache(race, report) {
            Some(result) => Some(service_proxy(result)),
            None => None,
        }
    }

    /// Forgets a peer that could not be asked.
    pub fn mark_peer_unavailable(&mut self, peer: &str)
        ensures
            final(self)@ == old(self)@.without_peer(peer@),
    {
        self.router.set_peer_unavailable(peer);
    }

    /// Follows an announcement of the discovery daemon: a neighbour that
    /// has appeared becomes a peer, known under `port`, and one that has
    /// gone is forgotten.
    pub fn on_announcement(&mut self, event: &AnnouncementEvent, port: u16)
        ensures
            final(self)@ == old(self)@.after_announcement(event@, port),
    {
        self.router.on_announcement(event, port);
    }
}

} // verus!
