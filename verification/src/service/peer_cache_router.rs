//! The router: where a request for a file goes.
//!
//! Database and index files go upstream. For any other file every known
//! peer is probed at once, and the probes are taken in the order in which
//! they finish: the first peer that has the file cached wins. A peer whose
//! probe failed is forgotten. When every probe has reported and none found
//! the file, the request goes upstream.

use crate::directory::distinct_hosts;
use crate::directory::entries_map;
use crate::directory::lemma_entry_is_mapped;
use crate::directory::lists_host;
use crate::directory::peers_after;
use crate::directory::PeerDirectory;
use crate::directory::PeerEntry;
use crate::discovery::browse::AnnouncementEvent;
use crate::discovery::browse::AnnouncementView;
use crate::error::text_result;
use crate::error::Error;
use crate::error::ErrorView;
use crate::probe::cache_url;
use crate::probe::peer_cache_url;
use crate::probe::probe_outcome;
use crate::probe::verdict_view;
use crate::probe::ExistenceCheck;
use crate::service::is_cachable;
use crate::service::is_cachable_file;
use crate::upstream::redirect_to_upstream;
use crate::upstream::resolve;
use crate::upstream::RepositoryMirrorMap;
use vstd::prelude::*;
use vstd::string::*;

verus! {

/// What a probe found.
pub enum ProbeOutcome {
    /// The peer has the file cached.
    Cached,
    /// The peer does not have the file cached.
    NotCached,
    /// The peer could not be asked.
    Unavailable,
}

/// The report of one finished probe: the peer that was probed and the
/// probe's result. A probe that failed, for whatever reason, counts as the
/// peer being unavailable.
#[derive(Debug)]
pub struct ProbeReport {
    pub peer: PeerEntry,
    pub result: Result<bool, Error>,
}

/// A `ProbeReport`, as contracts see it.
pub struct ReportView {
    pub hostname: Seq<char>,
    pub port: u16,
    pub outcome: ProbeOutcome,
}

impl View for ProbeReport {
    type V = ReportView;

    open spec fn view(&self) -> ReportView {
        ReportView {
            hostname: self.peer.hostname@,
            port: self.peer.service_port,
            outcome: outcome_of(verdict_view(self.result)),
        }
    }
}

/// What a probe with this result found.
pub open spec fn outcome_of(result: Result<bool, ErrorView>) -> ProbeOutcome {
    match result {
        Ok(true) => ProbeOutcome::Cached,
        Ok(false) => ProbeOutcome::NotCached,
        Err(_) => ProbeOutcome::Unavailable,
    }
}

/// The state of a race, as contracts see it.
pub struct RaceView {
    pub arch: Seq<char>,
    pub repo: Seq<char>,
    pub file_name: Seq<char>,
    /// The probes that have not reported yet.
    pub outstanding: nat,
    /// The request has its answer.
    pub settled: bool,
}

/// The state of a router, as contracts see it.
pub struct RouterView {
    /// The known peers: hostname to service port.
    pub peers: Map<Seq<char>, u16>,
    /// The configured mirrors: repository to templates.
    pub mirrors: Map<Seq<char>, Seq<Seq<char>>>,
}

impl RaceView {
    /// The race for a request, with `probes` probes under way.
    pub open spec fn begun(
        arch: Seq<char>,
        repo: Seq<char>,
        file_name: Seq<char>,
        probes: nat,
    ) -> RaceView {
        RaceView { arch, repo, file_name, outstanding: probes, settled: false }
    }

    /// Whether a report that found nothing is the last one awaited.
    pub open spec fn is_last(self) -> bool {
        self.outstanding <= 1
    }

    /// The race after a report. A settled race stays as it is. Otherwise
    /// one probe less is outstanding, and the race is settled if the report
    /// found the file or was the last.
    pub open spec fn after_report(self, report: ReportView) -> RaceView {
        if self.settled {
            self
        } else {
            RaceView {
                outstanding: if self.outstanding > 0 {
                    (self.outstanding - 1) as nat
                } else {
                    0
                },
                settled: report.outcome is Cached || self.is_last(),
                ..self
            }
        }
    }
}

impl RouterView {
    /// Whether a request for `file_name` starts a race among the peers: the
    /// file is one that peers may serve, and a peer is known.
    pub open spec fn probes(self, file_name: Seq<char>) -> bool {
        is_cachable(file_name) && self.peers != Map::<Seq<char>, u16>::empty()
    }

    /// The router without the peer `hostname`.
    pub open spec fn without_peer(self, hostname: Seq<char>) -> RouterView {
        RouterView { peers: self.peers.remove(hostname), ..self }
    }

    /// The router after an announcement of the discovery daemon.
    pub open spec fn after_announcement(self, event: AnnouncementView, port: u16) -> RouterView {
        RouterView { peers: peers_after(self.peers, event, port), ..self }
    }

    /// The router after a report: a peer that could not be asked is
    /// forgotten, whether or not the race is settled.
    pub open spec fn after_report(self, report: ReportView) -> RouterView {
        if report.outcome is Unavailable {
            self.without_peer(report.hostname)
        } else {
            self
        }
    }

    /// Where the request of a race goes upstream.
    pub open spec fn upstream(self, race: RaceView) -> Result<Seq<char>, ErrorView> {
        resolve(self.mirrors, race.repo, race.arch, race.file_name)
    }

    /// The answer that a report settles, if it settles one. In a race that
    /// is not settled, a report that found the file answers with that
    /// peer's address; the last report, if it found nothing, answers with
    /// the upstream address or the failure to find one.
    pub open spec fn answer(self, race: RaceView, report: ReportView) -> Option<
        Result<Seq<char>, ErrorView>,
    > {
        if race.settled {
            None
        } else if report.outcome is Cached {
            Some(Ok(peer_cache_url(report.hostname, report.port, race.file_name)))
        } else if race.is_last() {
            Some(self.upstream(race))
        } else {
            None
        }
    }

    /// The router after a series of reports.
    pub open spec fn after_reports(self, reports: Seq<ReportView>) -> RouterView
        decreases reports.len(),
    {
        if reports.len() == 0 {
            self
        } else {
            self.after_report(reports[0]).after_reports(reports.drop_first())
        }
    }
}

/// The race after a series of reports.
pub open spec fn race_after(race: RaceView, reports: Seq<ReportView>) -> RaceView
    decreases reports.len(),
{
    if reports.len() == 0 {
        race
    } else {
        race_after(race.after_report(reports[0]), reports.drop_first())
    }
}

/// The answer to the request of a race whose probes report in the order of
/// `reports`: the answer of the first report that settles one.
pub open spec fn race_answer(router: RouterView, race: RaceView, reports: Seq<ReportView>) -> Option<
    Result<Seq<char>, ErrorView>,
>
    decreases reports.len(),
{
    if reports.len() == 0 {
        None
    } else {
        match router.answer(race, reports[0]) {
            Some(result) => Some(result),
            None => race_answer(
                router.after_report(reports[0]),
                race.after_report(reports[0]),
                reports.drop_first(),
            ),
        }
    }
}

/// The view of an answer that may not be settled yet.
pub open spec fn settled_view(settled: Option<Result<String, Error>>) -> Option<
    Result<Seq<char>, ErrorView>,
> {
    match settled {
        Some(result) => Some(text_result(result)),
        None => None,
    }
}

/// The position of the first report that found the file, or the number of
/// reports if none did.
pub open spec fn first_cached(reports: Seq<ReportView>) -> int
    decreases reports.len(),
{
    if reports.len() == 0 {
        0
    } else if reports[0].outcome is Cached {
        0
    } else {
        1 + first_cached(reports.drop_first())
    }
}

/// `first_cached` is the position of the first report that found the file.
pub proof fn lemma_first_cached(reports: Seq<ReportView>)
    ensures
        0 <= first_cached(reports) <= reports.len(),
        first_cached(reports) < reports.len() ==> reports[first_cached(reports)].outcome is Cached,
        forall|j: int|
            0 <= j < first_cached(reports) ==> !((#[trigger] reports[j]).outcome is Cached),
    decreases reports.len(),
{
    if reports.len() > 0 && !(reports[0].outcome is Cached) {
        let rest = reports.drop_first();
        lemma_first_cached(rest);
        assert forall|j: int| 0 <= j < first_cached(reports) implies !((
        #[trigger] reports[j]).outcome is Cached) by {
            if j > 0 {
                assert(reports[j] == rest[j - 1]);
            }
        }
        if first_cached(reports) < reports.len() {
            assert(reports[first_cached(reports)] == rest[first_cached(rest)]);
        }
    }
}

/// A race in which some probe finds the file is won by a peer: the answer
/// is the address of the file at the peer whose probe was the first to
/// report that it found the file, and not the upstream address.
pub proof fn law_cached_peer_wins(router: RouterView, race: RaceView, reports: Seq<ReportView>)
    requires
        !race.settled,
        reports.len() <= race.outstanding,
        exists|i: int| 0 <= i < reports.len() && (#[trigger] reports[i]).outcome is Cached,
    ensures
        first_cached(reports) < reports.len(),
        reports[first_cached(reports)].outcome is Cached,
        race_answer(router, race, reports) == Some(
            Ok::<Seq<char>, ErrorView>(
                peer_cache_url(
                    reports[first_cached(reports)].hostname,
                    reports[first_cached(reports)].port,
                    race.file_name,
                ),
            ),
        ),
    decreases reports.len(),
{
    let witness = choose|i: int| 0 <= i < reports.len() && (#[trigger] reports[i]).outcome is Cached;
    if !(reports[0].outcome is Cached) {
        let rest = reports.drop_first();
        assert(rest[witness - 1] == reports[witness]);
        law_cached_peer_wins(router.after_report(reports[0]), race.after_report(reports[0]), rest);
        lemma_first_cached(rest);
        let k = first_cached(rest);
        assert(first_cached(reports) == k + 1);
        assert(reports[k + 1] == rest[k]);
    }
}

/// Where the peers answer a check of `url` with `answers(url)`, and some
/// peer has the file, with its signature unless the file is a signature
/// itself, the request is sent to such a peer, and not upstream.
pub proof fn law_peer_with_the_file_wins(
    router: RouterView,
    race: RaceView,
    reports: Seq<ReportView>,
    answers: spec_fn(Seq<char>) -> ExistenceCheck,
)
    requires
        !race.settled,
        reports.len() <= race.outstanding,
        forall|i: int|
            0 <= i < reports.len() ==> (#[trigger] reports[i]).outcome == outcome_of(
                probe_outcome(reports[i].hostname, reports[i].port, race.file_name, answers),
            ),
        exists|i: int|
            0 <= i < reports.len() && probe_outcome(
                (#[trigger] reports[i]).hostname,
                reports[i].port,
                race.file_name,
                answers,
            ) == Ok::<bool, ErrorView>(true),
    ensures
        exists|i: int|
            {
                &&& 0 <= i < reports.len()
                &&& probe_outcome(
                    (#[trigger] reports[i]).hostname,
                    reports[i].port,
                    race.file_name,
                    answers,
                ) == Ok::<bool, ErrorView>(true)
                &&& race_answer(router, race, reports) == Some(
                    Ok::<Seq<char>, ErrorView>(
                        peer_cache_url(reports[i].hostname, reports[i].port, race.file_name),
                    ),
                )
            },
{
    let witness = choose|i: int|
        0 <= i < reports.len() && probe_outcome(
            (#[trigger] reports[i]).hostname,
            reports[i].port,
            race.file_name,
            answers,
        ) == Ok::<bool, ErrorView>(true);
    assert(reports[witness].outcome is Cached);
    law_cached_peer_wins(router, race, reports);
    lemma_first_cached(reports);
    let winner = first_cached(reports);
    assert(reports[winner].outcome is Cached);
    assert(probe_outcome(reports[winner].hostname, reports[winner].port, race.file_name, answers)
        == Ok::<bool, ErrorView>(true));
}

/// A race in which every probe has reported and none found the file is
/// answered from upstream: with the mirror's address, or with the failure
/// to find one.
pub proof fn law_fallback_to_upstream(router: RouterView, race: RaceView, reports: Seq<ReportView>)
    requires
        !race.settled,
        race.outstanding >= 1,
        reports.len() == race.outstanding,
        forall|i: int| 0 <= i < reports.len() ==> !((#[trigger] reports[i]).outcome is Cached),
    ensures
        race_answer(router, race, reports) == Some(router.upstream(race)),
    decreases reports.len(),
{
    if race.outstanding > 1 {
        let rest = reports.drop_first();
        assert forall|i: int| 0 <= i < rest.len() implies !((#[trigger] rest[i]).outcome is Cached) by {
            assert(rest[i] == reports[i + 1]);
        }
        law_fallback_to_upstream(
            router.after_report(reports[0]),
            race.after_report(reports[0]),
            rest,
        );
    }
}

/// A settled race gives no second answer, whatever is reported to it.
pub proof fn law_settled_race_is_silent(
    router: RouterView,
    race: RaceView,
    reports: Seq<ReportView>,
)
    requires
        race.settled,
    ensures
        race_answer(router, race, reports) is None,
        race_after(race, reports) == race,
    decreases reports.len(),
{
    if reports.len() > 0 {
        law_settled_race_is_silent(
            router.after_report(reports[0]),
            race.after_report(reports[0]),
            reports.drop_first(),
        );
    }
}

/// No report makes a peer known or changes the mirrors.
pub proof fn law_reports_add_no_peer(router: RouterView, reports: Seq<ReportView>)
    ensures
        router.after_reports(reports).mirrors == router.mirrors,
        forall|h: Seq<char>| #[trigger]
            router.after_reports(reports).peers.contains_key(h) ==> router.peers.contains_key(h)
                && router.after_reports(reports).peers[h] == router.peers[h],
    decreases reports.len(),
{
    if reports.len() > 0 {
        let next = router.after_report(reports[0]);
        let rest = reports.drop_first();
        law_reports_add_no_peer(next, rest);
        assert forall|h: Seq<char>| #[trigger]
            router.after_reports(reports).peers.contains_key(h) implies router.peers.contains_key(
            h,
        ) && router.after_reports(reports).peers[h] == router.peers[h] by {
            assert(next.after_reports(rest).peers.contains_key(h));
            assert(next.peers.contains_key(h));
        }
    }
}

/// Every peer whose probe failed is forgotten once its report is in, also
/// when the race was settled before.
pub proof fn law_failed_peer_is_forgotten(router: RouterView, reports: Seq<ReportView>, i: int)
    requires
        0 <= i < reports.len(),
        reports[i].outcome is Unavailable,
    ensures
        !router.after_reports(reports).peers.contains_key(reports[i].hostname),
    decreases reports.len(),
{
    let rest = reports.drop_first();
    let next = router.after_report(reports[0]);
    if i == 0 {
        law_reports_add_no_peer(next, rest);
        assert(!next.peers.contains_key(reports[0].hostname));
        if next.after_reports(rest).peers.contains_key(reports[0].hostname) {
            assert(next.peers.contains_key(reports[0].hostname));
        }
    } else {
        assert(rest[i - 1] == reports[i]);
        law_failed_peer_is_forgotten(next, rest, i - 1);
    }
}

/// A peer of which no failure is reported stays known, under its port.
pub proof fn law_other_peers_stay(router: RouterView, reports: Seq<ReportView>, hostname: Seq<char>)
    requires
        router.peers.contains_key(hostname),
        forall|i: int|
            0 <= i < reports.len() && (#[trigger] reports[i]).outcome is Unavailable
                ==> reports[i].hostname != hostname,
    ensures
        router.after_reports(reports).peers.contains_key(hostname),
        router.after_reports(reports).peers[hostname] == router.peers[hostname],
    decreases reports.len(),
{
    if reports.len() > 0 {
        let rest = reports.drop_first();
        assert(reports[0].outcome is Unavailable ==> reports[0].hostname != hostname);
        assert forall|i: int|
            0 <= i < rest.len() && (#[trigger] rest[i]).outcome is Unavailable
            implies rest[i].hostname != hostname by {
            assert(rest[i] == reports[i + 1]);
        }
        law_other_peers_stay(router.after_report(reports[0]), rest, hostname);
    }
}

/// A peer that has been forgotten is not among those that the next request
/// probes.
pub proof fn law_forgotten_peer_is_not_probed(
    router: RouterView,
    report: ReportView,
    probed: Seq<PeerEntry>,
)
    requires
        report.outcome is Unavailable,
        entries_map(probed) == router.after_report(report).peers,
    ensures
        !lists_host(probed, report.hostname),
{
    assert(!entries_map(probed).contains_key(report.hostname));
}

/// The request of a race, and how many of its probes are outstanding.
pub struct PeerRace {
    arch: String,
    repo: String,
    file_name: String,
    outstanding: usize,
    settled: bool,
}

impl View for PeerRace {
    type V = RaceView;

    closed spec fn view(&self) -> RaceView {
        RaceView {
            arch: self.arch@,
            repo: self.repo@,
            file_name: self.file_name@,
            outstanding: self.outstanding as nat,
            settled: self.settled,
        }
    }
}

impl PeerRace {
    /// Whether the request has its answer.
    pub fn is_settled(&self) -> (settled: bool)
        ensures
            settled == self@.settled,
    {
        self.settled
    }

    /// The file that the race is about.
    pub fn file_name(&self) -> (file_name: &str)
        ensures
            file_name@ == self@.file_name,
    {
        self.file_name.as_str()
    }
}

/// What the router decides when a request comes in.
pub enum RouteDecision {
    /// The request has its answer: an address, or a failure.
    Settled(Result<String, Error>),
    /// Each of these peers is to be probed; the race holds the request.
    Probe(PeerRace, Vec<PeerEntry>),
}

/// The router: the known peers and the configured mirrors.
pub struct PeerCacheRouter {
    peer_list: PeerDirectory,
    upstream_urls: RepositoryMirrorMap,
}

impl View for PeerCacheRouter {
    type V = RouterView;

    closed spec fn view(&self) -> RouterView {
        RouterView { peers: self.peer_list@, mirrors: self.upstream_urls@ }
    }
}

impl PeerCacheRouter {
    /// A router over the known peers and the configured mirrors.
    pub fn new(peer_list: PeerDirectory, upstream_urls: RepositoryMirrorMap) -> (router: Self)
        ensures
            router@ == (RouterView { peers: peer_list@, mirrors: upstream_urls@ }),
    {
        PeerCacheRouter { peer_list, upstream_urls }
    }

    /// Decides where a request goes, as far as that can be said before any
    /// peer is asked. A file that peers may not serve goes upstream and no
    /// peer is probed; so does any file while no peer is known. Otherwise
    /// every known peer is to be probed.
    pub fn route_redirection(&self, arch: &str, repo: &str, file_name: &str) -> (decision:
        RouteDecision)
        ensures
            !is_cachable(file_name@) ==> decision is Settled,
            match decision {
                RouteDecision::Settled(result) => {
                    &&& !self@.probes(file_name@)
                    &&& text_result(result) == resolve(self@.mirrors, repo@, arch@, file_name@)
                },
                RouteDecision::Probe(race, peers) => {
                    &&& self@.probes(file_name@)
                    &&& race@ == RaceView::begun(arch@, repo@, file_name@, peers@.len())
                    &&& distinct_hosts(peers@)
                    &&& entries_map(peers@) == self@.peers
                },
            },
    {
        if is_cachable_file(file_name) {
            let peers = self.peer_list.snapshot();
            if peers.len() > 0 {
                proof {
                    lemma_entry_is_mapped(peers@, 0);
                    assert(self@.peers.contains_key(peers@[0].hostname@));
                }
                let race = PeerRace {
                    arch: arch.to_owned(),
                    repo: repo.to_owned(),
                    file_name: file_name.to_owned(),
                    outstanding: peers.len(),
                    settled: false,
                };
                return RouteDecision::Probe(race, peers);
            }
            assert(entries_map(peers@) =~= Map::<Seq<char>, u16>::empty());
        }
        RouteDecision::Settled(redirect_to_upstream(repo, arch, file_name, &self.upstream_urls))
    }

    /// Forgets a peer that could not be asked.
    pub fn set_peer_unavailable(&mut self, peer: &str)
        ensures
            final(self)@ == old(self)@.without_peer(peer@),
    {
        self.peer_list.remove(peer);
    }

    /// Follows an announcement of the discovery daemon: a neighbour that
    /// has appeared becomes a peer, known under `port`, and one that has
    /// gone is forgotten.
    pub fn on_announcement(&mut self, event: &AnnouncementEvent, port: u16)
        ensures
            final(self)@ == old(self)@.after_announcement(event@, port),
    {
        self.peer_list.on_announcement(event, port);
    }

    /// Takes the report of one probe of a race. A peer that could not be
    /// asked is forgotten. Returns the answer to the request if the report
    /// settles the race: the address at the peer that has the file, or,
    /// after the last report, the upstream address or the failure to find
    /// one. Reports to a settled race only have their peers forgotten.
    pub fn find_peer_with_cache(&mut self, race: &mut PeerRace, report: ProbeReport) -> (settled:
        Option<Result<String, Error>>)
        ensures
            final(self)@ == old(self)@.after_report(report@),
            final(race)@ == old(race)@.after_report(report@),
            settled_view(settled) == old(self)@.answer(old(race)@, report@),
    {
        let cached = match &report.result {
            Ok(cached) => *cached,
            Err(_) => {
                self.set_peer_unavailable(report.peer.hostname.as_str());
                false
            },
        };
        if race.settled {
            return None;
        }
        let last = race.outstanding <= 1;
        if race.outstanding > 0 {
            race.outstanding = race.outstanding - 1;
        }
        if cached {
            race.settled = true;
            Some(
                Ok(
                    cache_url(
                        report.peer.hostname.as_str(),
                        report.peer.service_port,
                        race.file_name.as_str(),
                    ),
                ),
            )
        } else if last {
            race.settled = true;
            Some(
                redirect_to_upstream(
                    race.repo.as_str(),
                    race.arch.as_str(),
                    race.file_name.as_str(),
                    &self.upstream_urls,
                ),
            )
        } else {
            None
        }
    }
}

} // verus!
