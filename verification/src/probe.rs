//! Asking one peer whether it serves a file.
//!
//! A package file counts as cached at a peer only together with its
//! signature: for a file that is not itself a signature, the peer is first
//! asked for `<file>.sig` and then for the file. A signature file is asked
//! for alone. Each question is one existence check against the peer's cache
//! endpoint; making the request is left to the caller, who reports what came
//! back.

use crate::error::Error;
use crate::error::ErrorView;
use crate::text::joined;
use crate::text::decimal;
use crate::text::ends_with;
use crate::text::str_ends_with;
use crate::text::u16_to_decimal;
use vstd::prelude::*;
use vstd::string::*;

verus! {

/// The seconds after which an existence check against a peer is given up.
pub const EXISTENCE_CHECK_TIMEOUT_SECS: u64 = 1;

/// The status with which a server says that it does not have the file.
pub const STATUS_NOT_FOUND: u16 = 404;

/// What came back from a request.
#[derive(Clone, Copy, Debug, PartialEq, Eq, Structural)]
pub enum HeadResponse {
    /// A response with this status code.
    Status(u16),
    /// No response: the transport failed or the time ran out.
    Failed,
}

/// The three outcomes of an existence check.
#[derive(Clone, Copy, Debug, PartialEq, Eq, Structural)]
pub enum ExistenceCheck {
    /// The peer has the file.
    Found,
    /// The peer answered that it does not have the file.
    NotFound,
    /// The peer did not answer, or answered with anything else.
    PeerError,
}

/// A request for the headers of `url`, to be given up after `timeout_secs`.
#[derive(Debug)]
pub struct HeadRequest {
    pub url: String,
    pub timeout_secs: u64,
}

/// How far a probe has come.
#[derive(Clone, Copy, Debug, PartialEq, Eq, Structural)]
pub enum ProbeStage {
    /// The check for the signature is due.
    CheckingSignature,
    /// The check for the file itself is due.
    CheckingFile,
    /// The probe has its result.
    Finished,
}

/// A status code of the success class.
pub open spec fn is_success(status: u16) -> bool {
    200 <= status < 300
}

/// The outcome that a response stands for.
pub open spec fn classify(response: HeadResponse) -> ExistenceCheck {
    match response {
        HeadResponse::Status(status) => if status == STATUS_NOT_FOUND {
            ExistenceCheck::NotFound
        } else if is_success(status) {
            ExistenceCheck::Found
        } else {
            ExistenceCheck::PeerError
        },
        HeadResponse::Failed => ExistenceCheck::PeerError,
    }
}

/// The name of a signature file.
pub open spec fn is_signature(file_name: Seq<char>) -> bool {
    ends_with(file_name, ".sig"@)
}

/// The address of `file_name` at the cache endpoint of a peer.
pub open spec fn peer_cache_url(hostname: Seq<char>, port: u16, file_name: Seq<char>) -> Seq<
    char,
> {
    "http://"@ + hostname + ":"@ + decimal(port as nat) + "/cache/"@ + file_name
}

/// The address of the signature that belongs to the file at `url`.
pub open spec fn signature_url(url: Seq<char>) -> Seq<char> {
    url + ".sig"@
}

/// The result of the check of the file itself.
pub open spec fn file_verdict(hostname: Seq<char>, check: ExistenceCheck) -> Result<
    bool,
    ErrorView,
> {
    match check {
        ExistenceCheck::Found => Ok(true),
        ExistenceCheck::NotFound => Ok(false),
        ExistenceCheck::PeerError => Err(ErrorView::PeerUnavailable(hostname)),
    }
}

/// The result of a probe against a peer that answers a check of `url` with
/// `answers(url)`: whether the file is cached there, or that the peer is
/// unavailable.
pub open spec fn probe_outcome(
    hostname: Seq<char>,
    port: u16,
    file_name: Seq<char>,
    answers: spec_fn(Seq<char>) -> ExistenceCheck,
) -> Result<bool, ErrorView> {
    let url = peer_cache_url(hostname, port, file_name);
    if is_signature(file_name) {
        file_verdict(hostname, answers(url))
    } else {
        match answers(signature_url(url)) {
            ExistenceCheck::Found => file_verdict(hostname, answers(url)),
            ExistenceCheck::NotFound => Ok(false),
            ExistenceCheck::PeerError => Err(ErrorView::PeerUnavailable(hostname)),
        }
    }
}

/// The view of a probe's result.
pub open spec fn verdict_view(result: Result<bool, Error>) -> Result<bool, ErrorView> {
    match result {
        Ok(cached) => Ok(cached),
        Err(error) => Err(error@),
    }
}

/// The view of what a check may have settled.
pub open spec fn settled_view(settled: Option<Result<bool, Error>>) -> Option<
    Result<bool, ErrorView>,
> {
    match settled {
        Some(result) => Some(verdict_view(result)),
        None => None,
    }
}

/// The state of a probe, as contracts see it.
pub struct ProbeView {
    pub hostname: Seq<char>,
    pub port: u16,
    pub file_name: Seq<char>,
    pub stage: ProbeStage,
}

impl ProbeView {
    /// The state of a probe that has just been made: a signature file is
    /// checked alone, any other file after its signature.
    pub open spec fn initial(hostname: Seq<char>, port: u16, file_name: Seq<char>) -> ProbeView {
        ProbeView {
            hostname,
            port,
            file_name,
            stage: if is_signature(file_name) {
                ProbeStage::CheckingFile
            } else {
                ProbeStage::CheckingSignature
            },
        }
    }

    /// The address of the file at the peer.
    pub open spec fn url(self) -> Seq<char> {
        peer_cache_url(self.hostname, self.port, self.file_name)
    }

    /// The address that the check that is due asks for.
    pub open spec fn due_url(self) -> Option<Seq<char>> {
        match self.stage {
            ProbeStage::CheckingSignature => Some(signature_url(self.url())),
            ProbeStage::CheckingFile => Some(self.url()),
            ProbeStage::Finished => None,
        }
    }

    /// The stage after the check that was due has had the outcome `check`.
    pub open spec fn stage_after(self, check: ExistenceCheck) -> ProbeStage {
        match self.stage {
            ProbeStage::CheckingSignature => if check == ExistenceCheck::Found {
                ProbeStage::CheckingFile
            } else {
                ProbeStage::Finished
            },
            _ => ProbeStage::Finished,
        }
    }

    /// The state after the check that was due has had the outcome `check`.
    pub open spec fn after_check(self, check: ExistenceCheck) -> ProbeView {
        ProbeView { stage: self.stage_after(check), ..self }
    }

    /// The result that the outcome `check` of the check that was due
    /// settles, if it settles one.
    pub open spec fn settled_by(self, check: ExistenceCheck) -> Option<Result<bool, ErrorView>> {
        match self.stage {
            ProbeStage::CheckingSignature => match check {
                ExistenceCheck::Found => None,
                ExistenceCheck::NotFound => Some(Ok(false)),
                ExistenceCheck::PeerError => Some(Err(ErrorView::PeerUnavailable(self.hostname))),
            },
            ProbeStage::CheckingFile => Some(file_verdict(self.hostname, check)),
            ProbeStage::Finished => None,
        }
    }

    /// The result of driving the probe to its end against a peer that
    /// answers a check of `url` with `answers(url)`. A finished probe
    /// settles nothing more.
    pub open spec fn run(self, answers: spec_fn(Seq<char>) -> ExistenceCheck) -> Option<
        Result<bool, ErrorView>,
    > {
        match self.due_url() {
            None => None,
            Some(first) => match self.settled_by(answers(first)) {
                Some(result) => Some(result),
                None => {
                    let next = self.after_check(answers(first));
                    match next.due_url() {
                        None => None,
                        Some(second) => next.settled_by(answers(second)),
                    }
                },
            },
        }
    }
}

/// Driving a new probe to its end gives the result that the peer's answers
/// call for: cached only if the file is there and, unless it is a signature
/// itself, its signature too; unavailable as soon as a check fails.
pub proof fn law_probe_run(
    hostname: Seq<char>,
    port: u16,
    file_name: Seq<char>,
    answers: spec_fn(Seq<char>) -> ExistenceCheck,
)
    ensures
        ProbeView::initial(hostname, port, file_name).run(answers) == Some(
            probe_outcome(hostname, port, file_name, answers),
        ),
{
}

/// A payload whose signature the peer does not have is not cached there,
/// whatever the peer says of the payload itself.
pub proof fn law_payload_needs_signature(
    hostname: Seq<char>,
    port: u16,
    file_name: Seq<char>,
    answers: spec_fn(Seq<char>) -> ExistenceCheck,
)
    requires
        !is_signature(file_name),
        answers(signature_url(peer_cache_url(hostname, port, file_name)))
            == ExistenceCheck::NotFound,
    ensures
        probe_outcome(hostname, port, file_name, answers) == Ok::<bool, ErrorView>(false),
{
}

/// A signature file that the peer has is cached there: no other file is
/// asked for.
pub proof fn law_signature_stands_alone(
    hostname: Seq<char>,
    port: u16,
    file_name: Seq<char>,
    answers: spec_fn(Seq<char>) -> ExistenceCheck,
)
    requires
        is_signature(file_name),
        answers(peer_cache_url(hostname, port, file_name)) == ExistenceCheck::Found,
    ensures
        probe_outcome(hostname, port, file_name, answers) == Ok::<bool, ErrorView>(true),
{
}

/// A check that gets no answer, or an answer that is neither a success nor
/// 404, ends the probe at once: the peer is unavailable.
pub proof fn law_failed_check_makes_peer_unavailable(probe: ProbeView, response: HeadResponse)
    requires
        !(probe.stage is Finished),
        response matches HeadResponse::Status(status) ==> status != STATUS_NOT_FOUND && !is_success(
            status,
        ),
    ensures
        classify(response) == ExistenceCheck::PeerError,
        probe.settled_by(classify(response)) == Some(
            Err::<bool, ErrorView>(ErrorView::PeerUnavailable(probe.hostname)),
        ),
        probe.after_check(classify(response)).stage == ProbeStage::Finished,
{
}

/// Classifies a response: a success status means found, 404 means not
/// found, and everything else, a failed request included, is the peer's
/// fault.
pub fn check_is_url_found(response: HeadResponse) -> (check: ExistenceCheck)
    ensures
        check == classify(response),
{
    match response {
        HeadResponse::Status(status) => {
            if status == STATUS_NOT_FOUND {
                ExistenceCheck::NotFound
            } else if 200 <= status && status < 300 {
                ExistenceCheck::Found
            } else {
                ExistenceCheck::PeerError
            }
        },
        HeadResponse::Failed => ExistenceCheck::PeerError,
    }
}

/// The address of `file_name` at the cache endpoint of a peer.
pub fn cache_url(hostname: &str, port: u16, file_name: &str) -> (url: String)
    ensures
        url@ == peer_cache_url(hostname@, port, file_name@),
{
    let mut url = joined("http://", hostname);
    url.append(":");
    let digits = u16_to_decimal(port);
    url.append(digits.as_str());
    url.append("/cache/");
    url.append(file_name);
    url
}

/// One probe: the peer, the file asked for, and how far the probe has come.
pub struct PeerProbe {
    hostname: String,
    port: u16,
    file_name: String,
    stage: ProbeStage,
}

impl View for PeerProbe {
    type V = ProbeView;

    closed spec fn view(&self) -> ProbeView {
        ProbeView {
            hostname: self.hostname@,
            port: self.port,
            file_name: self.file_name@,
            stage: self.stage,
        }
    }
}

impl PeerProbe {
    /// A probe of the peer `hostname`, whose cache service listens on
    /// `port`, for `file_name`.
    pub fn new(hostname: &str, port: u16, file_name: &str) -> (probe: Self)
        ensures
            probe@ == ProbeView::initial(hostname@, port, file_name@),
    {
        let stage = if str_ends_with(file_name, ".sig") {
            ProbeStage::CheckingFile
        } else {
            ProbeStage::CheckingSignature
        };
        PeerProbe { hostname: hostname.to_owned(), port, file_name: file_name.to_owned(), stage }
    }

    /// The check that is due, or `None` when the probe has its result.
    pub fn next_request(&self) -> (request: Option<HeadRequest>)
        ensures
            match request {
                Some(request) => self@.due_url() == Some(request.url@) && request.timeout_secs
                    == EXISTENCE_CHECK_TIMEOUT_SECS,
                None => self@.due_url() is None,
            },
    {
        match self.stage {
            ProbeStage::CheckingSignature => {
                let mut url = cache_url(self.hostname.as_str(), self.port, self.file_name.as_str());
                url.append(".sig");
                Some(HeadRequest { url, timeout_secs: EXISTENCE_CHECK_TIMEOUT_SECS })
            },
            ProbeStage::CheckingFile => {
                let url = cache_url(self.hostname.as_str(), self.port, self.file_name.as_str());
                Some(HeadRequest { url, timeout_secs: EXISTENCE_CHECK_TIMEOUT_SECS })
            },
            ProbeStage::Finished => None,
        }
    }

    /// Takes the outcome of the check that was due. Returns the probe's
    /// result if the outcome settles it, and `None` if another check is due
    /// or the probe had its result before.
    pub fn on_check(&mut self, check: ExistenceCheck) -> (settled: Option<Result<bool, Error>>)
        ensures
            final(self)@ == old(self)@.after_check(check),
            settled_view(settled) == old(self)@.settled_by(check),
    {
        match self.stage {
            ProbeStage::CheckingSignature => match check {
                ExistenceCheck::Found => {
                    self.stage = ProbeStage::CheckingFile;
                    None
                },
                ExistenceCheck::NotFound => {
                    self.stage = ProbeStage::Finished;
                    Some(Ok(false))
                },
                ExistenceCheck::PeerError => {
                    self.stage = ProbeStage::Finished;
                    Some(Err(Error::PeerUnavailable(self.hostname.clone())))
                },
            },
            ProbeStage::CheckingFile => {
                self.stage = ProbeStage::Finished;
                match check {
                    ExistenceCheck::Found => Some(Ok(true)),
                    ExistenceCheck::NotFound => Some(Ok(false)),
                    ExistenceCheck::PeerError => Some(
                        Err(Error::PeerUnavailable(self.hostname.clone())),
                    ),
                }
            },
            ProbeStage::Finished => None,
        }
    }
}

} // verus!
