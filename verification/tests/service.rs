use cacheman::directory::PeerDirectory;
use cacheman::directory::PeerEntry;
use cacheman::discovery::browse::AnnouncementEvent;
use cacheman::error::Error;
use cacheman::service::caller_is_local;
use cacheman::service::CallerAddress;
use cacheman::service::is_cachable_file;
use cacheman::service::peer_cache_router::PeerCacheRouter;
use cacheman::service::peer_cache_router::ProbeReport;
use cacheman::service::peer_cache_router::RouteDecision;
use cacheman::service::service_proxy;
use cacheman::service::ProxyResponse;
use cacheman::service::ProxyService;
use cacheman::service::ResponsePlan;
use cacheman::upstream::RepositoryMirrorMap;

fn extra_mirrors() -> RepositoryMirrorMap {
    let mut map = RepositoryMirrorMap::new();
    map.insert(
        "extra".to_string(),
        vec!["http://example.com/x86_64/extra/$repo/$arch/".to_string()],
    );
    map
}

fn peers(hostnames: &[&str]) -> PeerDirectory {
    let mut directory = PeerDirectory::new();
    for hostname in hostnames {
        directory.upsert(hostname, 1052);
    }
    directory
}

fn report(hostname: &str, result: Result<bool, Error>) -> ProbeReport {
    ProbeReport { peer: PeerEntry { hostname: hostname.to_string(), service_port: 1052 }, result }
}

fn unavailable(hostname: &str) -> Result<bool, Error> {
    Err(Error::PeerUnavailable(hostname.to_string()))
}

fn hostnames(mut entries: Vec<PeerEntry>) -> Vec<String> {
    let mut names: Vec<String> = entries.drain(..).map(|entry| entry.hostname).collect();
    names.sort();
    names
}

/// Answers a request at the service, with the probes reporting in the given
/// order.
fn respond(
    service: &mut ProxyService,
    path: (&str, &str, &str),
    reports: Vec<ProbeReport>,
) -> ProxyResponse {
    match service.generate_response(path.0, path.1, path.2) {
        ResponsePlan::Respond(response) => response,
        ResponsePlan::Probe(mut race, probed) => {
            assert_eq!(probed.len(), reports.len());
            let mut response = None;
            for report in reports {
                if let Some(settled) = service.find_peer_with_cache(&mut race, report) {
                    assert!(response.is_none());
                    response = Some(settled);
                }
            }
            response.expect("the last report settles the race")
        },
    }
}

#[test]
fn test_is_cachable_file() {
    assert!(is_cachable_file("pkg.tar.zst"));
    assert!(is_cachable_file("pkg.tar.zst.sig"));
    assert!(is_cachable_file("pkg.tar.xz"));
    assert!(is_cachable_file("pkg.tar.xz.sig"));
    assert!(!is_cachable_file("extra.db"));
    assert!(!is_cachable_file("extra.db.sig"));
    assert!(!is_cachable_file("extra.files"));
    assert!(!is_cachable_file("extra.files.sig"));
}

#[test]
fn cachable_goes_by_the_suffix_alone() {
    assert!(is_cachable_file(""));
    assert!(is_cachable_file("db"));
    assert!(is_cachable_file("extra.db.tar"));
    assert!(is_cachable_file("extra.files.sig.sig"));
    assert!(!is_cachable_file(".db"));
    assert!(!is_cachable_file(".files"));
    assert!(!is_cachable_file("a.sig.db"));
}

#[test]
fn service_test_proxy() {
    let mut service = ProxyService::new(PeerDirectory::new(), extra_mirrors());
    let response = respond(&mut service, ("x86_64", "extra", "extra.db"), Vec::new());
    assert_eq!(response.status(), 307);
}

#[test]
fn peer_cache_router_test_proxy() {
    let mut service = ProxyService::new(PeerDirectory::new(), extra_mirrors());
    let response = respond(&mut service, ("x86_64", "extra", "extra.db"), Vec::new());
    assert_eq!(response.status(), 307);
    let response = respond(&mut service, ("x86_64", "invalid_repo", "invalid.db"), Vec::new());
    assert_eq!(response.status(), 500);
    let response = respond(&mut service, ("x86_64", "core", "hoge.pkg.tar.zst"), Vec::new());
    assert_eq!(response.status(), 500);
}

#[test]
fn responses_carry_the_address_or_the_description() {
    let mut service = ProxyService::new(PeerDirectory::new(), extra_mirrors());
    assert_eq!(
        respond(&mut service, ("x86_64", "extra", "extra.db"), Vec::new()),
        ProxyResponse::Redirect("http://example.com/x86_64/extra/extra/x86_64//extra.db".to_string())
    );
    assert_eq!(
        respond(&mut service, ("x86_64", "invalid_repo", "invalid.db"), Vec::new()),
        ProxyResponse::InternalError("Repository invalid_repo is not available".to_string())
    );
    assert_eq!(
        service_proxy(Err(Error::NoMirrorConfigured("core".to_string()))),
        ProxyResponse::InternalError(
            "Repository core is available but no upstream found".to_string()
        )
    );
    assert_eq!(
        service_proxy(Ok("http://peer:1052/cache/f".to_string())),
        ProxyResponse::Redirect("http://peer:1052/cache/f".to_string())
    );
}

#[test]
fn database_files_are_never_probed() {
    let router = PeerCacheRouter::new(peers(&["alpha", "beta"]), extra_mirrors());
    for file_name in ["extra.db", "extra.files", "extra.db.sig", "extra.files.sig"] {
        match router.route_redirection("x86_64", "extra", file_name) {
            RouteDecision::Settled(result) => assert_eq!(
                result,
                Ok(format!("http://example.com/x86_64/extra/extra/x86_64//{}", file_name))
            ),
            RouteDecision::Probe(..) => panic!("{} must not be probed", file_name),
        }
    }
}

#[test]
fn packages_are_probed_at_every_peer() {
    let router = PeerCacheRouter::new(peers(&["alpha", "beta", "gamma"]), extra_mirrors());
    match router.route_redirection("x86_64", "extra", "pkg.tar.zst") {
        RouteDecision::Settled(_) => panic!("the peers must be probed"),
        RouteDecision::Probe(race, probed) => {
            assert!(!race.is_settled());
            assert_eq!(race.file_name(), "pkg.tar.zst");
            assert_eq!(hostnames(probed), vec!["alpha", "beta", "gamma"]);
        },
    }
}

#[test]
fn packages_go_upstream_while_no_peer_is_known() {
    let router = PeerCacheRouter::new(PeerDirectory::new(), extra_mirrors());
    match router.route_redirection("x86_64", "extra", "pkg.tar.zst") {
        RouteDecision::Settled(result) => assert_eq!(
            result,
            Ok("http://example.com/x86_64/extra/extra/x86_64//pkg.tar.zst".to_string())
        ),
        RouteDecision::Probe(..) => panic!("there is no peer to probe"),
    }
}

#[test]
fn first_peer_to_report_the_file_wins() {
    let mut service = ProxyService::new(peers(&["alpha", "beta", "gamma"]), extra_mirrors());
    let response = respond(
        &mut service,
        ("x86_64", "extra", "pkg.tar.zst"),
        vec![report("gamma", Ok(false)), report("beta", Ok(true)), report("alpha", Ok(true))],
    );
    assert_eq!(
        response,
        ProxyResponse::Redirect("http://beta:1052/cache/pkg.tar.zst".to_string())
    );
}

#[test]
fn winner_is_announced_at_once() {
    let mut router = PeerCacheRouter::new(peers(&["alpha", "beta"]), extra_mirrors());
    let RouteDecision::Probe(mut race, _) =
        router.route_redirection("x86_64", "extra", "pkg.tar.zst")
    else {
        panic!("the peers must be probed");
    };
    assert_eq!(
        router.find_peer_with_cache(&mut race, report("beta", Ok(true))),
        Some(Ok("http://beta:1052/cache/pkg.tar.zst".to_string()))
    );
    assert!(race.is_settled());
    assert_eq!(router.find_peer_with_cache(&mut race, report("alpha", Ok(true))), None);
}

#[test]
fn request_goes_upstream_when_no_peer_has_the_file() {
    let mut service = ProxyService::new(peers(&["alpha", "beta"]), extra_mirrors());
    let response = respond(
        &mut service,
        ("x86_64", "extra", "pkg.tar.zst"),
        vec![report("alpha", Ok(false)), report("beta", Ok(false))],
    );
    assert_eq!(
        response,
        ProxyResponse::Redirect(
            "http://example.com/x86_64/extra/extra/x86_64//pkg.tar.zst".to_string()
        )
    );
}

#[test]
fn upstream_failure_is_the_routers_failure() {
    let mut router = PeerCacheRouter::new(peers(&["alpha"]), extra_mirrors());
    let RouteDecision::Probe(mut race, _) =
        router.route_redirection("x86_64", "core", "hoge.pkg.tar.zst")
    else {
        panic!("the peer must be probed");
    };
    assert_eq!(
        router.find_peer_with_cache(&mut race, report("alpha", Ok(false))),
        Some(Err(Error::RepositoryUnknown("core".to_string())))
    );
}

#[test]
fn unavailable_peer_is_forgotten() {
    let mut router = PeerCacheRouter::new(peers(&["alpha", "beta"]), extra_mirrors());
    let RouteDecision::Probe(mut race, _) =
        router.route_redirection("x86_64", "extra", "pkg.tar.zst")
    else {
        panic!("the peers must be probed");
    };
    assert_eq!(router.find_peer_with_cache(&mut race, report("alpha", unavailable("alpha"))), None);
    assert_eq!(
        router.find_peer_with_cache(&mut race, report("beta", Ok(true))),
        Some(Ok("http://beta:1052/cache/pkg.tar.zst".to_string()))
    );
    match router.route_redirection("x86_64", "extra", "pkg.tar.zst") {
        RouteDecision::Probe(_, probed) => assert_eq!(hostnames(probed), vec!["beta"]),
        RouteDecision::Settled(_) => panic!("beta is still known"),
    }
}

#[test]
fn unavailable_peers_never_reach_the_caller() {
    let mut service = ProxyService::new(peers(&["alpha", "beta"]), extra_mirrors());
    let response = respond(
        &mut service,
        ("x86_64", "extra", "pkg.tar.zst"),
        vec![report("alpha", unavailable("alpha")), report("beta", unavailable("beta"))],
    );
    assert_eq!(
        response,
        ProxyResponse::Redirect(
            "http://example.com/x86_64/extra/extra/x86_64//pkg.tar.zst".to_string()
        )
    );
    match service.generate_response("x86_64", "extra", "pkg.tar.zst") {
        ResponsePlan::Respond(response) => assert_eq!(response.status(), 307),
        ResponsePlan::Probe(..) => panic!("no peer is left"),
    }
}

#[test]
fn losers_are_forgotten_after_the_race_is_won() {
    let mut router = PeerCacheRouter::new(peers(&["alpha", "beta", "gamma"]), extra_mirrors());
    let RouteDecision::Probe(mut race, _) =
        router.route_redirection("x86_64", "extra", "pkg.tar.zst")
    else {
        panic!("the peers must be probed");
    };
    assert!(router.find_peer_with_cache(&mut race, report("alpha", Ok(true))).is_some());
    assert_eq!(router.find_peer_with_cache(&mut race, report("beta", unavailable("beta"))), None);
    assert_eq!(router.find_peer_with_cache(&mut race, report("gamma", Ok(false))), None);
    match router.route_redirection("x86_64", "extra", "pkg.tar.zst") {
        RouteDecision::Probe(_, probed) => assert_eq!(hostnames(probed), vec!["alpha", "gamma"]),
        RouteDecision::Settled(_) => panic!("two peers are still known"),
    }
}

#[test]
fn announcements_change_the_peers() {
    let mut service = ProxyService::new(peers(&["alpha"]), extra_mirrors());
    service.on_announcement(&AnnouncementEvent::Joined("beta".to_string()), 8080);
    service.on_announcement(&AnnouncementEvent::SyncBarrier, 8080);
    service.on_announcement(&AnnouncementEvent::Failure, 8080);
    service.mark_peer_unavailable("alpha");
    service.mark_peer_unavailable("unknown");
    match service.generate_response("x86_64", "extra", "pkg.tar.zst") {
        ResponsePlan::Probe(_, probed) => assert_eq!(
            probed,
            vec![PeerEntry { hostname: "beta".to_string(), service_port: 8080 }]
        ),
        ResponsePlan::Respond(_) => panic!("beta is known"),
    }
    let mut router = PeerCacheRouter::new(peers(&["alpha"]), extra_mirrors());
    router.set_peer_unavailable("alpha");
    router.on_announcement(&AnnouncementEvent::Joined("gamma".to_string()), 1);
    router.on_announcement(&AnnouncementEvent::Joined("delta".to_string()), 1);
    router.on_announcement(&AnnouncementEvent::Left("delta".to_string()), 1);
    router.on_announcement(&AnnouncementEvent::Left("unknown".to_string()), 1);
    match router.route_redirection("x86_64", "extra", "pkg.tar.zst") {
        RouteDecision::Probe(_, probed) => assert_eq!(hostnames(probed), vec!["gamma"]),
        RouteDecision::Settled(_) => panic!("gamma is known"),
    }
}

#[test]
fn only_this_machine_may_use_the_proxy() {
    assert!(caller_is_local(Some(CallerAddress::V4([127, 0, 0, 1]))));
    assert!(caller_is_local(Some(CallerAddress::V4([127, 255, 255, 254]))));
    assert!(caller_is_local(Some(CallerAddress::V6([0, 0, 0, 0, 0, 0, 0, 1]))));
    assert!(!caller_is_local(None));
    assert!(!caller_is_local(Some(CallerAddress::V4([192, 168, 0, 127]))));
    assert!(!caller_is_local(Some(CallerAddress::V4([128, 0, 0, 1]))));
    assert!(!caller_is_local(Some(CallerAddress::V4([0, 0, 0, 0]))));
    assert!(!caller_is_local(Some(CallerAddress::V6([0, 0, 0, 0, 0, 0, 0, 0]))));
    assert!(!caller_is_local(Some(CallerAddress::V6([0, 0, 0, 0, 0, 0xffff, 0x7f00, 1]))));
    assert!(!caller_is_local(Some(CallerAddress::V6([0xfe80, 0, 0, 0, 0, 0, 0, 1]))));
}
