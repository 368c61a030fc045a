//! The hosts that the GitHub CLI knows, each with its settings.

use crate::config::GitProtocol;
use crate::text::str_eq;
use vstd::prelude::*;
use vstd::string::StringExecFns;

verus! {

/// The settings of one host.
#[derive(Debug)]
pub struct Host {
    /// The user who is logged in to the host.
    pub user: Option<String>,
    /// The token in plain text, empty where the file holds none.
    oauth_token: String,
    /// The protocol for git operations on this host.
    pub git_protocol: Option<GitProtocol>,
}

/// The model of a `Host`.
pub struct HostView {
    pub user: Option<Seq<char>>,
    pub oauth_token: Seq<char>,
    pub git_protocol: Option<GitProtocol>,
}

impl View for Host {
    type V = HostView;

    closed spec fn view(&self) -> HostView {
        HostView {
            user: match self.user {
                Some(user) => Some(user@),
                None => None,
            },
            oauth_token: self.oauth_token@,
            git_protocol: self.git_protocol,
        }
    }
}

impl Host {
    /// A host with these settings. An empty `oauth_token` stands for none.
    pub fn new(user: Option<String>, oauth_token: String, git_protocol: Option<GitProtocol>) -> (r:
        Host)
        ensures
            r@ == (HostView {
                user: match user {
                    Some(user) => Some(user@),
                    None => None,
                },
                oauth_token: oauth_token@,
                git_protocol,
            }),
    {
        Host { user, oauth_token, git_protocol }
    }

    /// The token in plain text, empty where the host has none.
    pub fn oauth_token(&self) -> (r: &str)
        ensures
            r@ == self@.oauth_token,
    {
        self.oauth_token.as_str()
    }
}

impl Clone for Host {
    fn clone(&self) -> (r: Host)
        ensures
            r@ == self@,
    {
        Host {
            user: match &self.user {
                Some(user) => Some(user.clone()),
                None => None,
            },
            oauth_token: self.oauth_token.clone(),
            git_protocol: self.git_protocol,
        }
    }
}

/// The hosts by their hostname. A hostname is taken as it is written:
/// neither its case nor a trailing dot is changed.
#[derive(Debug)]
pub struct Hosts {
    entries: Vec<(String, Host)>,
}

/// Whether the entry at `at` is that of `hostname`.
spec fn names(entries: Seq<(String, Host)>, hostname: Seq<char>, at: int) -> bool {
    0 <= at < entries.len() && entries[at].0@ == hostname
}

/// Whether no hostname occurs twice in `entries`.
spec fn distinct(entries: Seq<(String, Host)>) -> bool {
    forall|i: int, j: int|
        0 <= i < entries.len() && 0 <= j < entries.len() && i != j ==> (#[trigger] entries[i]).0@
            != (#[trigger] entries[j]).0@
}

/// The map that `entries` stand for.
spec fn map_of(entries: Seq<(String, Host)>) -> Map<Seq<char>, HostView> {
    Map::new(
        |hostname: Seq<char>| exists|at: int| names(entries, hostname, at),
        |hostname: Seq<char>| entries[choose|at: int| names(entries, hostname, at)].1@,
    )
}

/// Among distinct entries, the entry of a hostname is the one that the map holds.
proof fn lemma_map_of(entries: Seq<(String, Host)>, hostname: Seq<char>, at: int)
    requires
        distinct(entries),
        names(entries, hostname, at),
    ensures
        map_of(entries).contains_key(hostname),
        map_of(entries)[hostname] == entries[at].1@,
{
    let chosen = choose|at: int| names(entries, hostname, at);
    assert(names(entries, hostname, chosen));
    if chosen != at {
        assert(entries[chosen].0@ != entries[at].0@);
    }
}

impl View for Hosts {
    type V = Map<Seq<char>, HostView>;

    closed spec fn view(&self) -> Map<Seq<char>, HostView> {
        map_of(self.entries@)
    }
}

impl Hosts {
    /// No hostname occurs twice.
    #[verifier::type_invariant]
    closed spec fn well_formed(&self) -> bool {
        distinct(self.entries@)
    }

    /// No hosts at all.
    pub fn new() -> (r: Hosts)
        ensures
            r@ == Map::<Seq<char>, HostView>::empty(),
    {
        let r = Hosts { entries: Vec::new() };
        assert(r@ =~= Map::<Seq<char>, HostView>::empty());
        r
    }

    /// The index of the entry of `hostname`.
    fn find(&self, hostname: &str) -> (r: Option<usize>)
        ensures
            match r {
                Some(at) => names(self.entries@, hostname@, at as int),
                None => forall|at: int| !names(self.entries@, hostname@, at),
            },
    {
        let mut i: usize = 0;
        while i < self.entries.len()
            invariant
                i <= self.entries@.len(),
                forall|j: int| 0 <= j < i ==> !names(self.entries@, hostname@, j),
            decreases self.entries@.len() - i,
        {
            if str_eq(self.entries[i].0.as_str(), hostname) {
                return Some(i);
            }
            i += 1;
        }
        None
    }

    /// Gets the settings of a host by its hostname.
    pub fn get(&self, hostname: &str) -> (r: Option<&Host>)
        ensures
            match r {
                Some(host) => self@.contains_key(hostname@) && host@ == self@[hostname@],
                None => !self@.contains_key(hostname@),
            },
    {
        proof {
            use_type_invariant(self);
        }
        match self.find(hostname) {
            Some(at) => {
                proof {
                    lemma_map_of(self.entries@, hostname@, at as int);
                }
                Some(&self.entries[at].1)
            },
            None => None,
        }
    }

    /// Sets the settings of a host and returns those that it had before,
    /// `None` where the host was not known.
    pub fn set(&mut self, hostname: &str, host: Host) -> (r: Option<Host>)
        ensures
            final(self)@ == old(self)@.insert(hostname@, host@),
            match r {
                Some(before) => old(self)@.contains_key(hostname@) && before@ == old(
                    self,
                )@[hostname@],
                None => !old(self)@.contains_key(hostname@),
            },
    {
        proof {
            use_type_invariant(&*self);
        }
        let ghost before = self.entries@;
        let found = self.find(hostname);
        let mut entries: Vec<(String, Host)> = Vec::new();
        std::mem::swap(&mut self.entries, &mut entries);
        let previous = match found {
            Some(at) => {
                proof {
                    lemma_map_of(before, hostname@, at as int);
                }
                let (name, previous) = entries.remove(at);
                entries.insert(at, (name, host));
                assert(entries@[at as int].0@ == hostname@);
                assert(forall|j: int|
                    0 <= j < before.len() ==> (#[trigger] entries@[j]).0@ == before[j].0@);
                assert(forall|j: int|
                    0 <= j < before.len() && j != at ==> (#[trigger] entries@[j]) == before[j]);
                assert forall|i: int, j: int|
                    0 <= i < entries@.len() && 0 <= j < entries@.len() && i != j implies (
                #[trigger] entries@[i]).0@ != (#[trigger] entries@[j]).0@ by {
                    assert(before[i].0@ != before[j].0@);
                }
                Some(previous)
            },
            None => {
                entries.push((String::from_str(hostname), host));
                assert(forall|j: int| 0 <= j < before.len() ==> entries@[j] == before[j]);
                assert forall|i: int, j: int|
                    0 <= i < entries@.len() && 0 <= j < entries@.len() && i != j implies (
                #[trigger] entries@[i]).0@ != (#[trigger] entries@[j]).0@ by {
                    if i < before.len() && j < before.len() {
                        assert(before[i].0@ != before[j].0@);
                    } else if i < before.len() {
                        assert(!names(before, hostname@, i));
                    } else {
                        assert(!names(before, hostname@, j));
                    }
                }
                None
            },
        };
        proof {
            let after = entries@;
            assert(distinct(after));
            assert(names(
                after,
                hostname@,
                if found is Some {
                    found->Some_0 as int
                } else {
                    before.len() as int
                },
            ));
            assert forall|k: Seq<char>| #[trigger]
                map_of(after).contains_key(k) == old(self)@.insert(hostname@, host@).contains_key(
                    k,
                ) by {
                if k != hostname@ {
                    if map_of(after).contains_key(k) {
                        let c = choose|at: int| names(after, k, at);
                        assert(names(before, k, c));
                    }
                    if map_of(before).contains_key(k) {
                        let c = choose|at: int| names(before, k, at);
                        assert(names(after, k, c));
                    }
                }
            }
            assert forall|k: Seq<char>| map_of(after).contains_key(k) implies #[trigger] map_of(
                after,
            )[k] == old(self)@.insert(hostname@, host@)[k] by {
                let c = choose|at: int| names(after, k, at);
                lemma_map_of(after, k, c);
                if k != hostname@ {
                    assert(names(before, k, c));
                    lemma_map_of(before, k, c);
                }
            }
            assert(map_of(after) =~= old(self)@.insert(hostname@, host@));
        }
        self.entries = entries;
        previous
    }

    /// The hostnames of all hosts, each once, in the order in which the
    /// hosts were first set.
    pub fn hostnames(&self) -> (r: Vec<String>)
        ensures
            r.deep_view().no_duplicates(),
            r.deep_view().to_set() == self@.dom(),
    {
        proof {
            use_type_invariant(self);
        }
        let mut found: Vec<String> = Vec::new();
        let mut i: usize = 0;
        while i < self.entries.len()
            invariant
                i <= self.entries@.len(),
                found@.len() == i,
                forall|j: int| 0 <= j < i ==> (#[trigger] found@[j])@ == self.entries@[j].0@,
            decreases self.entries@.len() - i,
        {
            found.push(self.entries[i].0.clone());
            i += 1;
        }
        proof {
            let views = found.deep_view();
            assert(views.len() == found@.len());
            assert forall|j: int| 0 <= j < views.len() implies #[trigger] views[j]
                == self.entries@[j].0@ by {
                assert(views[j] == found@[j]@);
            }
            assert forall|a: int, b: int|
                0 <= a < views.len() && 0 <= b < views.len() && a != b implies views[a]
                != views[b] by {
                assert(self.entries@[a].0@ != self.entries@[b].0@);
            }
            assert forall|k: Seq<char>| views.to_set().contains(k) == self@.dom().contains(
                k,
            ) by {
                if views.to_set().contains(k) {
                    let at = choose|at: int| 0 <= at < views.len() && views[at] == k;
                    assert(names(self.entries@, k, at));
                }
                if self@.dom().contains(k) {
                    let at = choose|at: int| names(self.entries@, k, at);
                    assert(views[at] == k);
                }
            }
            assert(views.to_set() =~= self@.dom());
        }
        found
    }
}

impl Clone for Hosts {
    fn clone(&self) -> (r: Hosts)
        ensures
            r@ == self@,
    {
        proof {
            use_type_invariant(self);
        }
        let mut entries: Vec<(String, Host)> = Vec::new();
        let mut i: usize = 0;
        while i < self.entries.len()
            invariant
                i <= self.entries@.len(),
                entries@.len() == i,
                forall|j: int|
                    0 <= j < i ==> (#[trigger] entries@[j]).0@ == self.entries@[j].0@
                        && entries@[j].1@ == self.entries@[j].1@,
            decreases self.entries@.len() - i,
        {
            entries.push((self.entries[i].0.clone(), self.entries[i].1.clone()));
            i += 1;
        }
        proof {
            let mine = self.entries@;
            let theirs = entries@;
            assert forall|a: int, b: int|
                0 <= a < theirs.len() && 0 <= b < theirs.len() && a != b implies (
            #[trigger] theirs[a]).0@ != (#[trigger] theirs[b]).0@ by {
                assert(mine[a].0@ != mine[b].0@);
            }
            assert forall|k: Seq<char>| #[trigger]
                map_of(theirs).contains_key(k) == map_of(mine).contains_key(k) by {
                if map_of(theirs).contains_key(k) {
                    let at = choose|at: int| names(theirs, k, at);
                    assert(names(mine, k, at));
                }
                if map_of(mine).contains_key(k) {
                    let at = choose|at: int| names(mine, k, at);
                    assert(names(theirs, k, at));
                }
            }
            assert forall|k: Seq<char>| map_of(theirs).contains_key(k) implies #[trigger] map_of(
                theirs,
            )[k] == map_of(mine)[k] by {
                let at = choose|at: int| names(theirs, k, at);
                assert(names(mine, k, at));
                lemma_map_of(theirs, k, at);
                lemma_map_of(mine, k, at);
            }
            assert(map_of(theirs) =~= map_of(mine));
        }
        Hosts { entries }
    }
}

} // verus!
