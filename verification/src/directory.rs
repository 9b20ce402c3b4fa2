//! The registry of known peers.
//!
//! A directory maps each peer's hostname to the port of its cache service.
//! It is a plain value: whoever shares it between tasks guards it with a
//! lock and hands out snapshots, so that no request walks a directory that
//! changes under it.

use crate::discovery::browse::host_set;
use crate::discovery::browse::AnnouncementEvent;
use crate::discovery::browse::AnnouncementView;
use crate::discovery::browse::HostInfo;
use vstd::prelude::*;
use vstd::string::*;

verus! {

/// One known peer. A peer is identified by its hostname.
#[derive(Debug)]
pub struct PeerEntry {
    pub hostname: String,
    pub service_port: u16,
}

impl PartialEq for PeerEntry {
    fn eq(&self, other: &Self) -> (same: bool) {
        self.hostname == other.hostname && self.service_port == other.service_port
    }
}

impl Eq for PeerEntry {

}

impl vstd::std_specs::cmp::PartialEqSpecImpl for PeerEntry {
    open spec fn obeys_eq_spec() -> bool {
        true
    }

    open spec fn eq_spec(&self, other: &Self) -> bool {
        self.hostname@ == other.hostname@ && self.service_port == other.service_port
    }
}

impl Clone for PeerEntry {
    fn clone(&self) -> (copy: Self)
        ensures
            copy == *self,
    {
        PeerEntry { hostname: self.hostname.clone(), service_port: self.service_port }
    }
}

/// Some entry of `entries` has the hostname `hostname`.
pub open spec fn lists_host(entries: Seq<PeerEntry>, hostname: Seq<char>) -> bool {
    exists|i: int| 0 <= i < entries.len() && #[trigger] entries[i].hostname@ == hostname
}

/// The position of an entry of `entries` with the hostname `hostname`.
pub open spec fn position_of(entries: Seq<PeerEntry>, hostname: Seq<char>) -> int {
    choose|i: int| 0 <= i < entries.len() && #[trigger] entries[i].hostname@ == hostname
}

/// No two entries have the same hostname.
pub open spec fn distinct_hosts(entries: Seq<PeerEntry>) -> bool {
    forall|i: int, j: int|
        0 <= i < j < entries.len() ==> #[trigger] entries[i].hostname@
            != #[trigger] entries[j].hostname@
}

/// The mapping from hostname to port that a list of entries with distinct
/// hostnames stands for.
pub open spec fn entries_map(entries: Seq<PeerEntry>) -> Map<Seq<char>, u16> {
    Map::new(
        |hostname: Seq<char>| lists_host(entries, hostname),
        |hostname: Seq<char>| entries[position_of(entries, hostname)].service_port,
    )
}

/// The peers after an announcement: a neighbour that has appeared is known
/// under `port`, one that has gone is forgotten, and the other signals
/// change nothing.
pub open spec fn peers_after(
    peers: Map<Seq<char>, u16>,
    event: AnnouncementView,
    port: u16,
) -> Map<Seq<char>, u16> {
    match event {
        AnnouncementView::Joined(hostname) => peers.insert(hostname, port),
        AnnouncementView::Left(hostname) => peers.remove(hostname),
        _ => peers,
    }
}

/// In a list with distinct hostnames, each entry is the one that its
/// hostname is mapped to.
pub proof fn lemma_entry_is_mapped(entries: Seq<PeerEntry>, i: int)
    requires
        distinct_hosts(entries),
        0 <= i < entries.len(),
    ensures
        entries_map(entries).contains_key(entries[i].hostname@),
        entries_map(entries)[entries[i].hostname@] == entries[i].service_port,
        position_of(entries, entries[i].hostname@) == i,
{
    let hostname = entries[i].hostname@;
    let found = position_of(entries, hostname);
    assert(0 <= found < entries.len() && entries[found].hostname@ == hostname);
    if found < i {
        assert(entries[found].hostname@ != entries[i].hostname@);
    } else if i < found {
        assert(entries[i].hostname@ != entries[found].hostname@);
    }
}

/// Replacing an entry by one with the same hostname maps that hostname to
/// the new port and leaves the rest as it was.
pub proof fn lemma_map_after_set(before: Seq<PeerEntry>, i: int, entry: PeerEntry)
    requires
        distinct_hosts(before),
        0 <= i < before.len(),
        before[i].hostname@ == entry.hostname@,
    ensures
        distinct_hosts(before.update(i, entry)),
        entries_map(before.update(i, entry)) == entries_map(before).insert(
            entry.hostname@,
            entry.service_port,
        ),
{
    let after = before.update(i, entry);
    assert forall|a: int, b: int| 0 <= a < b < after.len() implies after[a].hostname@
        != after[b].hostname@ by {
        assert(before[a].hostname@ != before[b].hostname@);
    }
    assert forall|h: Seq<char>| lists_host(after, h) <==> lists_host(before, h) by {
        if lists_host(after, h) {
            let k = position_of(after, h);
            assert(before[k].hostname@ == h);
        }
        if lists_host(before, h) {
            let k = position_of(before, h);
            assert(after[k].hostname@ == h);
        }
    }
    assert(lists_host(before, entry.hostname@)) by {
        assert(before[i].hostname@ == entry.hostname@);
    }
    assert forall|h: Seq<char>| lists_host(after, h) implies #[trigger] entries_map(after)[h]
        == entries_map(before).insert(entry.hostname@, entry.service_port)[h] by {
        let k = position_of(after, h);
        lemma_entry_is_mapped(after, k);
        lemma_entry_is_mapped(before, k);
    }
    assert(entries_map(after) =~= entries_map(before).insert(
        entry.hostname@,
        entry.service_port,
    ));
}

/// Appending an entry whose hostname is new adds its mapping.
pub proof fn lemma_map_after_push(before: Seq<PeerEntry>, entry: PeerEntry)
    requires
        distinct_hosts(before),
        !lists_host(before, entry.hostname@),
    ensures
        distinct_hosts(before.push(entry)),
        entries_map(before.push(entry)) == entries_map(before).insert(
            entry.hostname@,
            entry.service_port,
        ),
{
    let after = before.push(entry);
    let last = before.len() as int;
    assert forall|a: int, b: int| 0 <= a < b < after.len() implies after[a].hostname@
        != after[b].hostname@ by {
        if b < last {
            assert(before[a].hostname@ != before[b].hostname@);
        } else {
            assert(before[a].hostname@ == after[a].hostname@);
        }
    }
    assert forall|h: Seq<char>| lists_host(after, h) <==> (lists_host(before, h) || h
        == entry.hostname@) by {
        if lists_host(after, h) {
            let k = position_of(after, h);
            if k < last {
                assert(before[k].hostname@ == h);
            }
        }
        if lists_host(before, h) {
            let k = position_of(before, h);
            assert(after[k].hostname@ == h);
        }
        if h == entry.hostname@ {
            assert(after[last].hostname@ == h);
        }
    }
    assert forall|h: Seq<char>| lists_host(after, h) implies #[trigger] entries_map(after)[h]
        == entries_map(before).insert(entry.hostname@, entry.service_port)[h] by {
        let k = position_of(after, h);
        lemma_entry_is_mapped(after, k);
        if k < last {
            assert(before[k].hostname@ == h);
            lemma_entry_is_mapped(before, k);
        }
    }
    assert(entries_map(after) =~= entries_map(before).insert(
        entry.hostname@,
        entry.service_port,
    ));
}

/// Taking an entry out removes the mapping of its hostname and no other.
pub proof fn lemma_map_after_remove(before: Seq<PeerEntry>, i: int)
    requires
        distinct_hosts(before),
        0 <= i < before.len(),
    ensures
        distinct_hosts(before.remove(i)),
        entries_map(before.remove(i)) == entries_map(before).remove(before[i].hostname@),
{
    let after = before.remove(i);
    let hostname = before[i].hostname@;
    assert forall|a: int, b: int| 0 <= a < b < after.len() implies after[a].hostname@
        != after[b].hostname@ by {
        let x = if a < i {
            a
        } else {
            a + 1
        };
        let y = if b < i {
            b
        } else {
            b + 1
        };
        assert(before[x].hostname@ != before[y].hostname@);
    }
    assert forall|h: Seq<char>| lists_host(after, h) <==> (lists_host(before, h) && h
        != hostname) by {
        if lists_host(after, h) {
            let k = position_of(after, h);
            let x = if k < i {
                k
            } else {
                k + 1
            };
            assert(before[x].hostname@ == h);
            if x < i {
                assert(before[x].hostname@ != before[i].hostname@);
            } else {
                assert(before[i].hostname@ != before[x].hostname@);
            }
        }
        if lists_host(before, h) && h != hostname {
            let k = position_of(before, h);
            let x = if k < i {
                k
            } else {
                k - 1
            };
            assert(after[x].hostname@ == h);
        }
    }
    assert forall|h: Seq<char>| lists_host(after, h) implies #[trigger] entries_map(after)[h]
        == entries_map(before)[h] by {
        let k = position_of(after, h);
        let x = if k < i {
            k
        } else {
            k + 1
        };
        lemma_entry_is_mapped(after, k);
        lemma_entry_is_mapped(before, x);
    }
    assert(entries_map(after) =~= entries_map(before).remove(hostname));
}

/// The position of the entry for `hostname`, if there is one.
fn find_host(entries: &Vec<PeerEntry>, hostname: &String) -> (at: Option<usize>)
    ensures
        match at {
            Some(i) => i < entries.len() && entries[i as int].hostname@ == hostname@,
            None => !lists_host(entries@, hostname@),
        },
{
    let mut i: usize = 0;
    while i < entries.len()
        invariant
            i <= entries.len(),
            forall|j: int| 0 <= j < i ==> entries[j].hostname@ != hostname@,
        decreases entries.len() - i,
    {
        if entries[i].hostname == *hostname {
            return Some(i);
        }
        i += 1;
    }
    None
}

/// The known peers: a mapping from hostname to service port.
pub struct PeerDirectory {
    entries: Vec<PeerEntry>,
}

impl View for PeerDirectory {
    type V = Map<Seq<char>, u16>;

    closed spec fn view(&self) -> Map<Seq<char>, u16> {
        entries_map(self.entries@)
    }
}

impl PeerDirectory {
    #[verifier::type_invariant]
    spec fn well_formed(self) -> bool {
        distinct_hosts(self.entries@)
    }

    /// A directory without peers.
    pub fn new() -> (directory: Self)
        ensures
            directory@ == Map::<Seq<char>, u16>::empty(),
    {
        let directory = PeerDirectory { entries: Vec::new() };
        assert(directory@ =~= Map::<Seq<char>, u16>::empty());
        directory
    }

    /// The directory of the neighbours that discovery has found, each known
    /// under `port`.
    pub fn from_hosts(hosts: &Vec<HostInfo>, port: u16) -> (directory: Self)
        ensures
            directory@ == Map::new(
                |hostname: Seq<char>| host_set(hosts@).contains(hostname),
                |hostname: Seq<char>| port,
            ),
    {
        let mut directory = PeerDirectory::new();
        let mut i: usize = 0;
        while i < hosts.len()
            invariant
                i <= hosts.len(),
                directory@ == Map::new(
                    |hostname: Seq<char>| host_set(hosts@.take(i as int)).contains(hostname),
                    |hostname: Seq<char>| port,
                ),
            decreases hosts.len() - i,
        {
            directory.upsert(hosts[i].hostname.as_str(), port);
            proof {
                let before = hosts@.take(i as int);
                let after = hosts@.take(i + 1);
                assert forall|h: Seq<char>| host_set(after).contains(h) <==> (host_set(
                    before,
                ).contains(h) || h == hosts@[i as int].hostname@) by {
                    if host_set(after).contains(h) {
                        let k = choose|k: int|
                            0 <= k < after.len() && #[trigger] after[k].hostname@ == h;
                        if k < i {
                            assert(before[k].hostname@ == h);
                        }
                    }
                    if host_set(before).contains(h) {
                        let k = choose|k: int|
                            0 <= k < before.len() && #[trigger] before[k].hostname@ == h;
                        assert(after[k].hostname@ == h);
                    }
                    if h == hosts@[i as int].hostname@ {
                        assert(after[i as int].hostname@ == h);
                    }
                }
                assert(directory@ =~= Map::new(
                    |hostname: Seq<char>| host_set(after).contains(hostname),
                    |hostname: Seq<char>| port,
                ));
            }
            i += 1;
        }
        assert(hosts@.take(hosts.len() as int) =~= hosts@);
        directory
    }

    /// The port under which `hostname` is known, if it is known.
    pub fn get(&self, hostname: &str) -> (port: Option<u16>)
        ensures
            port == (if self@.contains_key(hostname@) {
                Some(self@[hostname@])
            } else {
                None
            }),
    {
        proof {
            use_type_invariant(self);
        }
        let key = hostname.to_owned();
        match find_host(&self.entries, &key) {
            Some(i) => {
                proof {
                    lemma_entry_is_mapped(self.entries@, i as int);
                }
                Some(self.entries[i].service_port)
            },
            None => None,
        }
    }

    /// Makes `hostname` known under `port`, whether or not it was known.
    pub fn upsert(&mut self, hostname: &str, port: u16)
        ensures
            final(self)@ == old(self)@.insert(hostname@, port),
    {
        proof {
            use_type_invariant(&*self);
        }
        let entry = PeerEntry { hostname: hostname.to_owned(), service_port: port };
        let mut entries: Vec<PeerEntry> = Vec::new();
        std::mem::swap(&mut self.entries, &mut entries);
        match find_host(&entries, &entry.hostname) {
            Some(i) => {
                proof {
                    lemma_map_after_set(entries@, i as int, entry);
                }
                entries.set(i, entry);
            },
            None => {
                proof {
                    lemma_map_after_push(entries@, entry);
                }
                entries.push(entry);
            },
        }
        self.entries = entries;
    }

    /// Follows an announcement of the discovery daemon. Every neighbour
    /// serves its cache on `port`.
    pub fn on_announcement(&mut self, event: &AnnouncementEvent, port: u16)
        ensures
            final(self)@ == peers_after(old(self)@, event@, port),
    {
        match event {
            AnnouncementEvent::Joined(hostname) => self.upsert(hostname.as_str(), port),
            AnnouncementEvent::Left(hostname) => self.remove(hostname.as_str()),
            _ => {},
        }
    }

    /// Forgets `hostname`. Nothing changes if it was not known.
    pub fn remove(&mut self, hostname: &str)
        ensures
            final(self)@ == old(self)@.remove(hostname@),
    {
        proof {
            use_type_invariant(&*self);
        }
        let key = hostname.to_owned();
        let mut entries: Vec<PeerEntry> = Vec::new();
        std::mem::swap(&mut self.entries, &mut entries);
        match find_host(&entries, &key) {
            Some(i) => {
                proof {
                    lemma_map_after_remove(entries@, i as int);
                }
                entries.remove(i);
            },
            None => {
                assert(entries_map(entries@) =~= entries_map(entries@).remove(hostname@));
            },
        }
        self.entries = entries;
    }

    /// A copy of the directory as it is now: one entry for each known peer.
    pub fn snapshot(&self) -> (entries: Vec<PeerEntry>)
        ensures
            distinct_hosts(entries@),
            entries_map(entries@) == self@,
    {
        proof {
            use_type_invariant(self);
        }
        let mut entries: Vec<PeerEntry> = Vec::new();
        let mut i: usize = 0;
        while i < self.entries.len()
            invariant
                i <= self.entries.len(),
                entries@ == self.entries@.take(i as int),
            decreases self.entries.len() - i,
        {
            entries.push(self.entries[i].clone());
            assert(entries@ =~= self.entries@.take(i + 1));
            i += 1;
        }
        assert(entries@ =~= self.entries@);
        entries
    }
}

} // verus!
