//! Browsing: the live set of neighbours.

use crate::discovery::Lifecycle;
use crate::discovery::ANY_INTERFACE;
use crate::discovery::ANY_PROTOCOL;
use crate::discovery::SERVICE_TYPE;
use crate::error::Error;
use crate::error::ErrorView;
use vstd::prelude::*;
use vstd::string::*;

verus! {

/// A neighbour, as the browser reports it.
#[derive(Debug, Hash)]
pub struct HostInfo {
    pub hostname: String,
}

impl PartialEq for HostInfo {
    fn eq(&self, other: &Self) -> (same: bool) {
        self.hostname == other.hostname
    }
}

impl Eq for HostInfo {

}

impl vstd::std_specs::cmp::PartialEqSpecImpl for HostInfo {
    open spec fn obeys_eq_spec() -> bool {
        true
    }

    open spec fn eq_spec(&self, other: &Self) -> bool {
        self.hostname@ == other.hostname@
    }
}

impl Clone for HostInfo {
    fn clone(&self) -> (copy: Self)
        ensures
            copy == *self,
    {
        HostInfo { hostname: self.hostname.clone() }
    }
}

/// One signal of the discovery daemon.
#[derive(Debug)]
pub enum AnnouncementEvent {
    /// A neighbour with this hostname has appeared.
    Joined(String),
    /// The neighbour with this hostname has gone.
    Left(String),
    /// Every neighbour known so far has been announced.
    SyncBarrier,
    /// Browsing has failed.
    Failure,
}

/// An `AnnouncementEvent` with its hostname as a character sequence.
pub enum AnnouncementView {
    Joined(Seq<char>),
    Left(Seq<char>),
    SyncBarrier,
    Failure,
}

impl View for AnnouncementEvent {
    type V = AnnouncementView;

    open spec fn view(&self) -> AnnouncementView {
        match self {
            AnnouncementEvent::Joined(hostname) => AnnouncementView::Joined(hostname@),
            AnnouncementEvent::Left(hostname) => AnnouncementView::Left(hostname@),
            AnnouncementEvent::SyncBarrier => AnnouncementView::SyncBarrier,
            AnnouncementEvent::Failure => AnnouncementView::Failure,
        }
    }
}

/// What a listener took from its signal stream.
#[derive(Debug)]
pub enum ListenerItem {
    /// A signal that could be decoded.
    Announcement(AnnouncementEvent),
    /// A signal whose body could not be decoded.
    Undecodable,
}

/// What a listener does after an item.
#[derive(Clone, Copy, Debug, PartialEq, Eq, Structural)]
pub enum ListenerVerdict {
    /// Go on listening.
    Continue,
    /// Go on listening, and wake whoever waits for a change.
    Wake,
    /// Give up: the listener's task fails.
    Abort,
}

/// The calls that set a browser up, in the order in which they are made.
#[derive(Clone, Copy, Debug, PartialEq, Eq, Structural)]
pub enum SetupStep {
    Connect,
    Prepare,
    SubscribeJoined,
    SubscribeLeft,
    SubscribeBarrier,
    SubscribeFailure,
    Start,
}

/// Where a browser stands.
#[derive(Clone, Copy, Debug, PartialEq, Eq, Structural)]
pub enum BrowserPhase {
    /// Being set up; holds the call that is due.
    Starting(SetupStep),
    /// Set up and listening.
    Active,
    /// Shut down.
    Terminated,
}

/// What the driver of a browser has to do next.
#[derive(Clone, Copy, Debug, PartialEq, Eq, Structural)]
pub enum BrowserAction {
    /// Open a connection to the system bus.
    Connect,
    /// Ask the daemon to prepare a service browser for `browse_request()`.
    PrepareBrowser,
    /// Start a listener for the signal that announces a new neighbour.
    SubscribeJoined,
    /// Start a listener for the signal that announces a departure.
    SubscribeLeft,
    /// Start a listener for the signal that ends a burst of announcements.
    SubscribeBarrier,
    /// Start a listener for the signal that reports a failure.
    SubscribeFailure,
    /// Tell the daemon to start the prepared browser.
    Start,
    /// Nothing is due but to feed the browser what the listeners receive.
    Listen,
    /// Stop every listener and free the browser at the daemon.
    Release,
    /// Nothing at all: the browser is shut down.
    Rest,
}

/// The parameters with which a service browser is prepared.
#[derive(Debug)]
pub struct BrowseRequest {
    pub interface: i32,
    pub protocol: i32,
    pub service_type: String,
    pub domain: String,
    pub flags: u32,
}

/// The state of a browser, as contracts see it.
pub struct BrowserView {
    /// The hostnames of the neighbours that are present.
    pub items: Set<Seq<char>>,
    /// A change notification waits to be taken. There is room for one:
    /// further ones are dropped while it waits.
    pub change_pending: bool,
    /// The daemon has reported a failure.
    pub failed: bool,
    pub phase: BrowserPhase,
}

impl SetupStep {
    /// The phase that follows when this call has succeeded.
    pub open spec fn successor(self) -> BrowserPhase {
        match self {
            SetupStep::Connect => BrowserPhase::Starting(SetupStep::Prepare),
            SetupStep::Prepare => BrowserPhase::Starting(SetupStep::SubscribeJoined),
            SetupStep::SubscribeJoined => BrowserPhase::Starting(SetupStep::SubscribeLeft),
            SetupStep::SubscribeLeft => BrowserPhase::Starting(SetupStep::SubscribeBarrier),
            SetupStep::SubscribeBarrier => BrowserPhase::Starting(SetupStep::SubscribeFailure),
            SetupStep::SubscribeFailure => BrowserPhase::Starting(SetupStep::Start),
            SetupStep::Start => BrowserPhase::Active,
        }
    }

    /// The action that makes this call.
    pub open spec fn action(self) -> BrowserAction {
        match self {
            SetupStep::Connect => BrowserAction::Connect,
            SetupStep::Prepare => BrowserAction::PrepareBrowser,
            SetupStep::SubscribeJoined => BrowserAction::SubscribeJoined,
            SetupStep::SubscribeLeft => BrowserAction::SubscribeLeft,
            SetupStep::SubscribeBarrier => BrowserAction::SubscribeBarrier,
            SetupStep::SubscribeFailure => BrowserAction::SubscribeFailure,
            SetupStep::Start => BrowserAction::Start,
        }
    }
}

impl BrowserPhase {
    /// What is due in this phase.
    pub open spec fn action(self) -> BrowserAction {
        match self {
            BrowserPhase::Starting(step) => step.action(),
            BrowserPhase::Active => BrowserAction::Listen,
            BrowserPhase::Terminated => BrowserAction::Rest,
        }
    }
}

impl BrowserView {
    /// The state of a browser that has just been made.
    pub open spec fn initial() -> BrowserView {
        BrowserView {
            items: Set::empty(),
            change_pending: false,
            failed: false,
            phase: BrowserPhase::Starting(SetupStep::Connect),
        }
    }

    /// The stage of its life that the browser is in.
    pub open spec fn lifecycle(self) -> Lifecycle {
        match self.phase {
            BrowserPhase::Starting(_) => Lifecycle::Starting,
            BrowserPhase::Active => if self.failed {
                Lifecycle::Failed
            } else {
                Lifecycle::Active
            },
            BrowserPhase::Terminated => Lifecycle::Terminated,
        }
    }

    /// The state after the answer to the setup call that was due. A browser
    /// that is not being set up is due no call and ignores the answer.
    pub open spec fn after_setup_reply(self, succeeded: bool) -> BrowserView {
        match self.phase {
            BrowserPhase::Starting(step) => BrowserView {
                phase: if succeeded {
                    step.successor()
                } else {
                    BrowserPhase::Terminated
                },
                ..self
            },
            _ => self,
        }
    }

    /// The state after an announcement. A browser that is shut down has no
    /// listeners left and ignores it.
    pub open spec fn after_event(self, event: AnnouncementView) -> BrowserView {
        if self.phase is Terminated {
            self
        } else {
            match event {
                AnnouncementView::Joined(hostname) => BrowserView {
                    items: self.items.insert(hostname),
                    ..self
                },
                AnnouncementView::Left(hostname) => BrowserView {
                    items: self.items.remove(hostname),
                    ..self
                },
                AnnouncementView::SyncBarrier => BrowserView { change_pending: true, ..self },
                AnnouncementView::Failure => BrowserView { failed: true, ..self },
            }
        }
    }

    /// Whether an announcement gives a waiter reason to be woken: it queues
    /// a change notification where none was waiting.
    pub open spec fn wakes(self, event: AnnouncementView) -> bool {
        !(self.phase is Terminated) && event is SyncBarrier && !self.change_pending
    }

    /// The state after a shutdown.
    pub open spec fn after_terminate(self) -> BrowserView {
        BrowserView { phase: BrowserPhase::Terminated, ..self }
    }
}

/// A neighbour whose arrival was announced is present and one whose
/// departure was announced is not; an announcement about one neighbour
/// says nothing of another.
pub proof fn law_announcements_decide_presence(
    browser: BrowserView,
    hostname: Seq<char>,
    other: Seq<char>,
)
    requires
        !(browser.phase is Terminated),
        other != hostname,
    ensures
        browser.after_event(AnnouncementView::Joined(hostname)).items.contains(hostname),
        !browser.after_event(AnnouncementView::Left(hostname)).items.contains(hostname),
        browser.after_event(AnnouncementView::Joined(hostname)).items.contains(other)
            == browser.items.contains(other),
        browser.after_event(AnnouncementView::Left(hostname)).items.contains(other)
            == browser.items.contains(other),
{
}

/// A browser that is shut down stays shut down and changes no more.
pub proof fn law_terminated_is_final(
    browser: BrowserView,
    event: AnnouncementView,
    succeeded: bool,
)
    requires
        browser.phase is Terminated,
    ensures
        browser.lifecycle() == Lifecycle::Terminated,
        browser.after_event(event) == browser,
        browser.after_setup_reply(succeeded) == browser,
        browser.after_terminate() == browser,
        !browser.wakes(event),
{
}

/// A failure lasts: no announcement and no answer clears it, and a failed
/// browser leaves that state only by being shut down.
pub proof fn law_failure_lasts(browser: BrowserView, event: AnnouncementView, succeeded: bool)
    requires
        browser.failed,
    ensures
        browser.after_event(event).failed,
        browser.after_setup_reply(succeeded).failed,
        browser.after_terminate().failed,
        browser.lifecycle() == Lifecycle::Failed ==> {
            &&& browser.after_event(event).lifecycle() == Lifecycle::Failed
            &&& browser.after_setup_reply(succeeded).lifecycle() == Lifecycle::Failed
            &&& browser.after_terminate().lifecycle() == Lifecycle::Terminated
        },
{
}

/// Change notifications do not pile up: while one waits, a further barrier
/// changes nothing and wakes nobody.
pub proof fn law_notifications_coalesce(browser: BrowserView)
    ensures
        browser.after_event(AnnouncementView::SyncBarrier).after_event(
            AnnouncementView::SyncBarrier,
        ) == browser.after_event(AnnouncementView::SyncBarrier),
        !browser.after_event(AnnouncementView::SyncBarrier).wakes(AnnouncementView::SyncBarrier),
{
}

/// Setup is seven calls in a fixed order: connect, prepare the browser,
/// start the four listeners, start the browser. When all have succeeded the
/// browser is active; a call that fails shuts it down.
pub proof fn law_setup_order(step: SetupStep)
    ensures
        BrowserView::initial().phase.action() == BrowserAction::Connect,
        BrowserView::initial().after_setup_reply(true).phase.action()
            == BrowserAction::PrepareBrowser,
        BrowserView::initial().after_setup_reply(true).after_setup_reply(true).phase.action()
            == BrowserAction::SubscribeJoined,
        BrowserView::initial().after_setup_reply(true).after_setup_reply(true).after_setup_reply(
            true,
        ).phase.action() == BrowserAction::SubscribeLeft,
        BrowserView::initial().after_setup_reply(true).after_setup_reply(true).after_setup_reply(
            true,
        ).after_setup_reply(true).phase.action() == BrowserAction::SubscribeBarrier,
        BrowserView::initial().after_setup_reply(true).after_setup_reply(true).after_setup_reply(
            true,
        ).after_setup_reply(true).after_setup_reply(true).phase.action()
            == BrowserAction::SubscribeFailure,
        BrowserView::initial().after_setup_reply(true).after_setup_reply(true).after_setup_reply(
            true,
        ).after_setup_reply(true).after_setup_reply(true).after_setup_reply(true).phase.action()
            == BrowserAction::Start,
        BrowserView::initial().after_setup_reply(true).after_setup_reply(true).after_setup_reply(
            true,
        ).after_setup_reply(true).after_setup_reply(true).after_setup_reply(true).after_setup_reply(
            true,
        ).lifecycle() == Lifecycle::Active,
        (BrowserView { phase: BrowserPhase::Starting(step), ..BrowserView::initial() }).after_setup_reply(
            false,
        ).lifecycle() == Lifecycle::Terminated,
{
}

/// Some item of `items` has the hostname `hostname`.
pub open spec fn names_host(items: Seq<HostInfo>, hostname: Seq<char>) -> bool {
    exists|i: int| 0 <= i < items.len() && #[trigger] items[i].hostname@ == hostname
}

/// No two items have the same hostname.
pub open spec fn distinct_items(items: Seq<HostInfo>) -> bool {
    forall|i: int, j: int|
        0 <= i < j < items.len() ==> #[trigger] items[i].hostname@ != #[trigger] items[j].hostname@
}

/// The hostnames that a list of items names.
pub open spec fn host_set(items: Seq<HostInfo>) -> Set<Seq<char>> {
    Set::new(|hostname: Seq<char>| names_host(items, hostname))
}

/// Appending an item with a new hostname adds that hostname.
pub proof fn lemma_hosts_after_push(before: Seq<HostInfo>, item: HostInfo)
    requires
        distinct_items(before),
        !names_host(before, item.hostname@),
    ensures
        distinct_items(before.push(item)),
        host_set(before.push(item)) == host_set(before).insert(item.hostname@),
{
    let after = before.push(item);
    let last = before.len() as int;
    assert forall|a: int, b: int| 0 <= a < b < after.len() implies after[a].hostname@
        != after[b].hostname@ by {
        if b < last {
            assert(before[a].hostname@ != before[b].hostname@);
        } else {
            assert(before[a].hostname@ == after[a].hostname@);
        }
    }
    assert forall|h: Seq<char>| names_host(after, h) <==> (names_host(before, h) || h
        == item.hostname@) by {
        if names_host(after, h) {
            let k = choose|k: int| 0 <= k < after.len() && #[trigger] after[k].hostname@ == h;
            if k < last {
                assert(before[k].hostname@ == h);
            }
        }
        if names_host(before, h) {
            let k = choose|k: int| 0 <= k < before.len() && #[trigger] before[k].hostname@ == h;
            assert(after[k].hostname@ == h);
        }
        if h == item.hostname@ {
            assert(after[last].hostname@ == h);
        }
    }
    assert(host_set(after) =~= host_set(before).insert(item.hostname@));
}

/// Taking an item out removes its hostname and no other.
pub proof fn lemma_hosts_after_remove(before: Seq<HostInfo>, i: int)
    requires
        distinct_items(before),
        0 <= i < before.len(),
    ensures
        distinct_items(before.remove(i)),
        host_set(before.remove(i)) == host_set(before).remove(before[i].hostname@),
{
    let after = before.remove(i);
    let hostname = before[i].hostname@;
    assert forall|a: int, b: int| 0 <= a < b < after.len() implies after[a].hostname@
        != after[b].hostname@ by {
        let x = if a < i {
            a
        } else {
            a + 1
        };
        let y = if b < i {
            b
        } else {
            b + 1
        };
        assert(before[x].hostname@ != before[y].hostname@);
    }
    assert forall|h: Seq<char>| names_host(after, h) <==> (names_host(before, h) && h
        != hostname) by {
        if names_host(after, h) {
            let k = choose|k: int| 0 <= k < after.len() && #[trigger] after[k].hostname@ == h;
            let x = if k < i {
                k
            } else {
                k + 1
            };
            assert(before[x].hostname@ == h);
            if x < i {
                assert(before[x].hostname@ != before[i].hostname@);
            } else {
                assert(before[i].hostname@ != before[x].hostname@);
            }
        }
        if names_host(before, h) && h != hostname {
            let k = choose|k: int| 0 <= k < before.len() && #[trigger] before[k].hostname@ == h;
            let x = if k < i {
                k
            } else {
                k - 1
            };
            assert(after[x].hostname@ == h);
        }
    }
    assert(host_set(after) =~= host_set(before).remove(hostname));
}

/// The position of the item for `hostname`, if there is one.
fn find_item(items: &Vec<HostInfo>, hostname: &String) -> (at: Option<usize>)
    ensures
        match at {
            Some(i) => i < items.len() && items[i as int].hostname@ == hostname@,
            None => !names_host(items@, hostname@),
        },
{
    let mut i: usize = 0;
    while i < items.len()
        invariant
            i <= items.len(),
            forall|j: int| 0 <= j < i ==> items[j].hostname@ != hostname@,
        decreases items.len() - i,
    {
        if items[i].hostname == *hostname {
            return Some(i);
        }
        i += 1;
    }
    None
}

/// The parameters with which the service browser is prepared: every
/// interface, every protocol, the cache service's type, the default domain.
pub fn browse_request() -> (request: BrowseRequest)
    ensures
        request.interface == ANY_INTERFACE,
        request.protocol == ANY_PROTOCOL,
        request.service_type@ == SERVICE_TYPE@,
        request.domain@ == Seq::<char>::empty(),
        request.flags == 0,
{
    BrowseRequest {
        interface: ANY_INTERFACE,
        protocol: ANY_PROTOCOL,
        service_type: String::from_str(SERVICE_TYPE),
        domain: String::new(),
        flags: 0,
    }
}

/// The browser's state: the neighbours that are present, the change
/// notification, the failure flag and the stage of setup or shutdown.
pub struct Browser {
    current_items: Vec<HostInfo>,
    change_pending: bool,
    is_failed: bool,
    phase: BrowserPhase,
}

impl View for Browser {
    type V = BrowserView;

    closed spec fn view(&self) -> BrowserView {
        BrowserView {
            items: host_set(self.current_items@),
            change_pending: self.change_pending,
            failed: self.is_failed,
            phase: self.phase,
        }
    }
}

impl Browser {
    #[verifier::type_invariant]
    spec fn well_formed(self) -> bool {
        distinct_items(self.current_items@)
    }

    /// A browser at the start of its setup.
    pub fn new() -> (browser: Self)
        ensures
            browser@ == BrowserView::initial(),
    {
        let browser = Browser {
            current_items: Vec::new(),
            change_pending: false,
            is_failed: false,
            phase: BrowserPhase::Starting(SetupStep::Connect),
        };
        assert(host_set(browser.current_items@) =~= Set::<Seq<char>>::empty());
        browser
    }

    /// The stage of its life that the browser is in.
    pub fn lifecycle(&self) -> (stage: Lifecycle)
        ensures
            stage == self@.lifecycle(),
    {
        match self.phase {
            BrowserPhase::Starting(_) => Lifecycle::Starting,
            BrowserPhase::Active => if self.is_failed {
                Lifecycle::Failed
            } else {
                Lifecycle::Active
            },
            BrowserPhase::Terminated => Lifecycle::Terminated,
        }
    }

    /// What the driver has to do next.
    pub fn next_action(&self) -> (action: BrowserAction)
        ensures
            action == self@.phase.action(),
    {
        match self.phase {
            BrowserPhase::Starting(SetupStep::Connect) => BrowserAction::Connect,
            BrowserPhase::Starting(SetupStep::Prepare) => BrowserAction::PrepareBrowser,
            BrowserPhase::Starting(SetupStep::SubscribeJoined) => BrowserAction::SubscribeJoined,
            BrowserPhase::Starting(SetupStep::SubscribeLeft) => BrowserAction::SubscribeLeft,
            BrowserPhase::Starting(SetupStep::SubscribeBarrier) => BrowserAction::SubscribeBarrier,
            BrowserPhase::Starting(SetupStep::SubscribeFailure) => BrowserAction::SubscribeFailure,
            BrowserPhase::Starting(SetupStep::Start) => BrowserAction::Start,
            BrowserPhase::Active => BrowserAction::Listen,
            BrowserPhase::Terminated => BrowserAction::Rest,
        }
    }

    /// Takes the answer to the setup call that was due. After a success the
    /// next call is due, or the browser is active; a failure shuts the
    /// browser down and is reported as `DiscoveryFailed`.
    pub fn on_setup_reply(&mut self, succeeded: bool) -> (result: Result<BrowserAction, Error>)
        ensures
            final(self)@ == old(self)@.after_setup_reply(succeeded),
            match result {
                Ok(action) => action == final(self)@.phase.action() && (succeeded || !(
                old(self)@.phase is Starting)),
                Err(error) => error@ == ErrorView::DiscoveryFailed && !succeeded
                    && old(self)@.phase is Starting,
            },
    {
        proof {
            use_type_invariant(&*self);
        }
        match self.phase {
            BrowserPhase::Starting(step) => {
                if succeeded {
                    self.phase =
                    match step {
                        SetupStep::Connect => BrowserPhase::Starting(SetupStep::Prepare),
                        SetupStep::Prepare => BrowserPhase::Starting(SetupStep::SubscribeJoined),
                        SetupStep::SubscribeJoined => BrowserPhase::Starting(
                            SetupStep::SubscribeLeft,
                        ),
                        SetupStep::SubscribeLeft => BrowserPhase::Starting(
                            SetupStep::SubscribeBarrier,
                        ),
                        SetupStep::SubscribeBarrier => BrowserPhase::Starting(
                            SetupStep::SubscribeFailure,
                        ),
                        SetupStep::SubscribeFailure => BrowserPhase::Starting(SetupStep::Start),
                        SetupStep::Start => BrowserPhase::Active,
                    };
                    Ok(self.next_action())
                } else {
                    self.phase = BrowserPhase::Terminated;
                    Err(Error::DiscoveryFailed)
                }
            },
            _ => Ok(self.next_action()),
        }
    }

    /// Applies one announcement. Returns whether a waiter is to be woken.
    pub fn handle_event(&mut self, event: AnnouncementEvent) -> (wake: bool)
        ensures
            final(self)@ == old(self)@.after_event(event@),
            wake == old(self)@.wakes(event@),
    {
        proof {
            use_type_invariant(&*self);
        }
        if self.phase == BrowserPhase::Terminated {
            return false;
        }
        match event {
            AnnouncementEvent::Joined(hostname) => {
                let mut items: Vec<HostInfo> = Vec::new();
                std::mem::swap(&mut self.current_items, &mut items);
                match find_item(&items, &hostname) {
                    Some(_) => {
                        assert(host_set(items@) =~= host_set(items@).insert(hostname@));
                    },
                    None => {
                        let item = HostInfo { hostname };
                        proof {
                            lemma_hosts_after_push(items@, item);
                        }
                        items.push(item);
                    },
                }
                self.current_items = items;
                false
            },
            AnnouncementEvent::Left(hostname) => {
                let mut items: Vec<HostInfo> = Vec::new();
                std::mem::swap(&mut self.current_items, &mut items);
                match find_item(&items, &hostname) {
                    Some(i) => {
                        proof {
                            lemma_hosts_after_remove(items@, i as int);
                        }
                        items.remove(i);
                    },
                    None => {
                        assert(host_set(items@) =~= host_set(items@).remove(hostname@));
                    },
                }
                self.current_items = items;
                false
            },
            AnnouncementEvent::SyncBarrier => {
                let wake = !self.change_pending;
                self.change_pending = true;
                wake
            },
            AnnouncementEvent::Failure => {
                self.is_failed = true;
                false
            },
        }
    }

    /// Takes one item from a listener's stream. An announcement is applied;
    /// an item that could not be decoded changes nothing and ends the
    /// listener.
    pub fn deliver(&mut self, item: ListenerItem) -> (verdict: ListenerVerdict)
        ensures
            match item {
                ListenerItem::Announcement(event) => {
                    &&& final(self)@ == old(self)@.after_event(event@)
                    &&& verdict == if old(self)@.wakes(event@) {
                        ListenerVerdict::Wake
                    } else {
                        ListenerVerdict::Continue
                    }
                },
                ListenerItem::Undecodable => {
                    &&& final(self)@ == old(self)@
                    &&& verdict == ListenerVerdict::Abort
                },
            },
    {
        match item {
            ListenerItem::Announcement(event) => {
                if self.handle_event(event) {
                    ListenerVerdict::Wake
                } else {
                    ListenerVerdict::Continue
                }
            },
            ListenerItem::Undecodable => ListenerVerdict::Abort,
        }
    }

    /// The neighbours that are present now, unless browsing has failed.
    pub fn get_current_items(&self) -> (result: Result<Vec<HostInfo>, Error>)
        ensures
            match result {
                Ok(items) => {
                    &&& !self@.failed
                    &&& distinct_items(items@)
                    &&& host_set(items@) == self@.items
                },
                Err(error) => self@.failed && error@ == ErrorView::DiscoveryFailed,
            },
    {
        proof {
            use_type_invariant(self);
        }
        if self.is_failed {
            return Err(Error::DiscoveryFailed);
        }
        let mut items: Vec<HostInfo> = Vec::new();
        let mut i: usize = 0;
        while i < self.current_items.len()
            invariant
                i <= self.current_items.len(),
                items@ == self.current_items@.take(i as int),
            decreases self.current_items.len() - i,
        {
            items.push(self.current_items[i].clone());
            assert(items@ =~= self.current_items@.take(i + 1));
            i += 1;
        }
        assert(items@ =~= self.current_items@);
        Ok(items)
    }

    /// The neighbours that are present, once a change notification has come.
    /// A failed browser reports `DiscoveryFailed` at once. Otherwise a waiting
    /// notification is taken and the neighbours are returned; where none
    /// waits, the result is `None` and the caller waits to be woken.
    pub fn get_updated_items(&mut self) -> (result: Option<Result<Vec<HostInfo>, Error>>)
        ensures
            old(self)@.failed ==> final(self)@ == old(self)@ && (result matches Some(Err(error))
                && error@ == ErrorView::DiscoveryFailed),
            !old(self)@.failed && !old(self)@.change_pending ==> final(self)@ == old(self)@
                && result is None,
            !old(self)@.failed && old(self)@.change_pending ==> {
                &&& final(self)@ == BrowserView { change_pending: false, ..old(self)@ }
                &&& result matches Some(Ok(items))
                &&& distinct_items(items@)
                &&& host_set(items@) == old(self)@.items
            },
    {
        proof {
            use_type_invariant(&*self);
        }
        if self.is_failed {
            return Some(Err(Error::DiscoveryFailed));
        }
        if !self.change_pending {
            return None;
        }
        self.change_pending = false;
        Some(self.get_current_items())
    }

    /// Shuts the browser down. Returns what is left to do: to stop the
    /// listeners and free the browser, or nothing if that was done before.
    pub fn terminate(&mut self) -> (action: BrowserAction)
        ensures
            final(self)@ == old(self)@.after_terminate(),
            action == if old(self)@.phase is Terminated {
                BrowserAction::Rest
            } else {
                BrowserAction::Release
            },
    {
        proof {
            use_type_invariant(&*self);
        }
        let action = if self.phase == BrowserPhase::Terminated {
            BrowserAction::Rest
        } else {
            BrowserAction::Release
        };
        self.phase = BrowserPhase::Terminated;
        action
    }
}

} // verus!
