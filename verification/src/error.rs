//! The failures that the library reports.

use crate::text::joined;
use vstd::prelude::*;
use vstd::string::*;

verus! {

/// A failure of one of the library's operations.
#[derive(Debug)]
pub enum Error {
    /// The configuration query tool failed; holds what it wrote to its
    /// error stream.
    ConfigQueryFailed(String),
    /// No mirror list is configured under this repository name.
    RepositoryUnknown(String),
    /// The repository is configured, but its mirror list is empty.
    NoMirrorConfigured(String),
    /// The peer with this hostname could not be asked.
    PeerUnavailable(String),
    /// The discovery daemon reported that browsing failed.
    DiscoveryFailed,
    /// The advertisement could not be registered.
    RegistrationFailed,
}

/// An `Error` with its texts as character sequences.
pub enum ErrorView {
    ConfigQueryFailed(Seq<char>),
    RepositoryUnknown(Seq<char>),
    NoMirrorConfigured(Seq<char>),
    PeerUnavailable(Seq<char>),
    DiscoveryFailed,
    RegistrationFailed,
}

impl View for Error {
    type V = ErrorView;

    open spec fn view(&self) -> ErrorView {
        match self {
            Error::ConfigQueryFailed(stderr) => ErrorView::ConfigQueryFailed(stderr@),
            Error::RepositoryUnknown(repo) => ErrorView::RepositoryUnknown(repo@),
            Error::NoMirrorConfigured(repo) => ErrorView::NoMirrorConfigured(repo@),
            Error::PeerUnavailable(hostname) => ErrorView::PeerUnavailable(hostname@),
            Error::DiscoveryFailed => ErrorView::DiscoveryFailed,
            Error::RegistrationFailed => ErrorView::RegistrationFailed,
        }
    }
}

impl PartialEq for Error {
    fn eq(&self, other: &Self) -> (same: bool) {
        match (self, other) {
            (Error::ConfigQueryFailed(a), Error::ConfigQueryFailed(b)) => *a == *b,
            (Error::RepositoryUnknown(a), Error::RepositoryUnknown(b)) => *a == *b,
            (Error::NoMirrorConfigured(a), Error::NoMirrorConfigured(b)) => *a == *b,
            (Error::PeerUnavailable(a), Error::PeerUnavailable(b)) => *a == *b,
            (Error::DiscoveryFailed, Error::DiscoveryFailed) => true,
            (Error::RegistrationFailed, Error::RegistrationFailed) => true,
            _ => false,
        }
    }
}

impl Eq for Error {

}

impl vstd::std_specs::cmp::PartialEqSpecImpl for Error {
    open spec fn obeys_eq_spec() -> bool {
        true
    }

    open spec fn eq_spec(&self, other: &Self) -> bool {
        self@ == other@
    }
}

/// The text that describes a failure to a person.
pub open spec fn describe(error: ErrorView) -> Seq<char> {
    match error {
        ErrorView::ConfigQueryFailed(stderr) => "pacman-conf failed: "@ + stderr,
        ErrorView::RepositoryUnknown(repo) => "Repository "@ + repo + " is not available"@,
        ErrorView::NoMirrorConfigured(repo) => "Repository "@ + repo
            + " is available but no upstream found"@,
        ErrorView::PeerUnavailable(hostname) => "Peer "@ + hostname + " is unavailable"@,
        ErrorView::DiscoveryFailed => "Browser is failed"@,
        ErrorView::RegistrationFailed => "Service registration failed"@,
    }
}

/// The view of an operation's result: the text it gives, or its failure.
pub open spec fn text_result(result: Result<String, Error>) -> Result<Seq<char>, ErrorView> {
    match result {
        Ok(text) => Ok(text@),
        Err(error) => Err(error@),
    }
}

impl Error {
    /// The description of this failure.
    pub fn description(&self) -> (text: String)
        ensures
            text@ == describe(self@),
    {
        match self {
            Error::ConfigQueryFailed(stderr) => joined("pacman-conf failed: ", stderr.as_str()),
            Error::RepositoryUnknown(repo) => {
                let mut text = joined("Repository ", repo.as_str());
                text.append(" is not available");
                text
            },
            Error::NoMirrorConfigured(repo) => {
                let mut text = joined("Repository ", repo.as_str());
                text.append(" is available but no upstream found");
                text
            },
            Error::PeerUnavailable(hostname) => {
                let mut text = joined("Peer ", hostname.as_str());
                text.append(" is unavailable");
                text
            },
            Error::DiscoveryFailed => String::from_str("Browser is failed"),
            Error::RegistrationFailed => String::from_str("Service registration failed"),
        }
    }
}

} // verus!
