//! The command routing table: at most one live delivery handle per device
//! identity, with subscribe, unsubscribe and route operations. A later
//! subscription displaces an earlier one; routing is at-most-once and
//! best-effort.

use vstd::prelude::*;
use crate::model::Id;

verus! {

#[verifier::external_type_specification]
#[verifier::external_body]
#[verifier::reject_recursive_types(T)]
pub struct ExSender<T>(tokio::sync::mpsc::Sender<T>);

/// An opaque per-session delivery handle: the sending side of a bounded
/// channel on which one protocol session waits for a command.
#[derive(Debug)]
pub struct CommandHandle {
    sender: tokio::sync::mpsc::Sender<String>,
}

impl CommandHandle {
    /// Wrap the sending side of a session's command channel.
    pub fn new(sender: tokio::sync::mpsc::Sender<String>) -> CommandHandle {
        CommandHandle { sender }
    }

    /// Relies on tokio's `Sender::try_send`: a non-blocking send that is `Ok`
    /// exactly when the channel is still open and has capacity. The result
    /// depends on the live channel, so nothing is promised of it.
    #[verifier::external_body]
    pub(crate) fn try_deliver(&self, command: String) -> bool {
        self.sender.try_send(command).is_ok()
    }
}

/// The keys of the table are pairwise distinct.
spec fn unique_keys(s: Seq<(Id, CommandHandle)>) -> bool {
    forall|i: int, j: int| 0 <= i < j < s.len() ==> s[i].0@ != s[j].0@
}

/// The table as a map from device identity to its current handle.
spec fn entries_map(s: Seq<(Id, CommandHandle)>) -> Map<(Seq<char>, Seq<char>), CommandHandle>
    decreases s.len(),
{
    if s.len() == 0 {
        Map::empty()
    } else {
        entries_map(s.drop_last()).insert(s.last().0@, s.last().1)
    }
}

proof fn lemma_entries_map_dom(s: Seq<(Id, CommandHandle)>, k: (Seq<char>, Seq<char>))
    ensures
        entries_map(s).contains_key(k) <==> exists|i: int| 0 <= i < s.len() && s[i].0@ == k,
    decreases s.len(),
{
    if s.len() == 0 {
    } else {
        lemma_entries_map_dom(s.drop_last(), k);
        assert(forall|i: int| 0 <= i < s.len() - 1 ==> s.drop_last()[i] == s[i]);
        if entries_map(s).contains_key(k) {
            if s.last().0@ == k {
                assert(s[s.len() - 1].0@ == k);
            } else {
                let i = choose|i: int|
                    0 <= i < s.drop_last().len() && s.drop_last()[i].0@ == k;
                assert(s[i].0@ == k);
            }
        }
        if exists|i: int| 0 <= i < s.len() && s[i].0@ == k {
            let i = choose|i: int| 0 <= i < s.len() && s[i].0@ == k;
            if i < s.len() - 1 {
                assert(s.drop_last()[i].0@ == k);
            }
        }
    }
}

proof fn lemma_entries_map_at(s: Seq<(Id, CommandHandle)>, i: int)
    requires
        unique_keys(s),
        0 <= i < s.len(),
    ensures
        entries_map(s).contains_key(s[i].0@),
        entries_map(s)[s[i].0@] == s[i].1,
    decreases s.len(),
{
    if i == s.len() - 1 {
    } else {
        assert(unique_keys(s.drop_last()));
        assert(forall|j: int| 0 <= j < s.len() - 1 ==> s.drop_last()[j] == s[j]);
        lemma_entries_map_at(s.drop_last(), i);
        assert(s[i].0@ != s.last().0@);
    }
}

proof fn lemma_entries_map_remove(s: Seq<(Id, CommandHandle)>, i: int)
    requires
        unique_keys(s),
        0 <= i < s.len(),
    ensures
        entries_map(s.remove(i)) =~= entries_map(s).remove(s[i].0@),
    decreases s.len(),
{
    let k = s[i].0@;
    if i == s.len() - 1 {
        assert(s.remove(i) =~= s.drop_last());
        assert(forall|j: int| 0 <= j < s.len() - 1 ==> s.drop_last()[j] == s[j]);
        lemma_entries_map_dom(s.drop_last(), k);
        assert(!entries_map(s.drop_last()).contains_key(k));
        assert(entries_map(s).remove(k) =~= entries_map(s.drop_last()));
    } else {
        assert(unique_keys(s.drop_last()));
        assert(forall|j: int| 0 <= j < s.len() - 1 ==> s.drop_last()[j] == s[j]);
        lemma_entries_map_remove(s.drop_last(), i);
        assert(s.remove(i).drop_last() =~= s.drop_last().remove(i));
        assert(s.remove(i).last() == s.last());
        assert(s.last().0@ != k);
        assert(entries_map(s.remove(i)) =~= entries_map(s.drop_last().remove(i)).insert(
            s.last().0@,
            s.last().1,
        ));
        assert(entries_map(s.drop_last().remove(i)) =~= entries_map(s.drop_last()).remove(k));
        assert(entries_map(s).remove(k) =~= entries_map(s.drop_last()).remove(k).insert(
            s.last().0@,
            s.last().1,
        ));
    }
}

/// Whether a session may subscribe under the given topic: commands reach a
/// device only through the single `command` topic, and any other subscription
/// is refused.
pub fn subscription_topic_allowed(topic: &String) -> (r: bool)
    ensures
        r == (topic@ == "command"@),
{
    let command = String::from_str("command");
    *topic == command
}

/// A later subscription displaces an earlier one: after subscribing `h1` and
/// then `h2` under one identity, the identity's handle is `h2` alone, so a
/// routed command can only reach `h2`.
pub proof fn lemma_resubscribe_displaces(
    m: Map<(Seq<char>, Seq<char>), CommandHandle>,
    id: (Seq<char>, Seq<char>),
    h1: CommandHandle,
    h2: CommandHandle,
)
    ensures
        m.insert(id, h1).insert(id, h2)[id] == h2,
        m.insert(id, h1).insert(id, h2) =~= m.insert(id, h2),
{
}

/// After an unsubscribe no entry is left under the identity, so a route for
/// it is a miss until someone subscribes again.
pub proof fn lemma_unsubscribed_identity_has_no_entry(
    m: Map<(Seq<char>, Seq<char>), CommandHandle>,
    id: (Seq<char>, Seq<char>),
)
    ensures
        !m.remove(id).contains_key(id),
{
}

/// The routing table shared by all protocol sessions of one instance: a map
/// from device identity to the single active delivery handle.
#[derive(Debug)]
pub struct CommandRouter {
    devices: Vec<(Id, CommandHandle)>,
}

impl View for CommandRouter {
    type V = Map<(Seq<char>, Seq<char>), CommandHandle>;

    closed spec fn view(&self) -> Map<(Seq<char>, Seq<char>), CommandHandle> {
        entries_map(self.devices@)
    }
}

impl Default for CommandRouter {
    fn default() -> (r: CommandRouter)
        ensures
            r.wf(),
            r@ == Map::<(Seq<char>, Seq<char>), CommandHandle>::empty(),
    {
        CommandRouter::new()
    }
}

impl CommandRouter {
    /// The table never holds two entries for one identity.
    pub closed spec fn wf(&self) -> bool {
        unique_keys(self.devices@)
    }

    /// An empty routing table.
    pub fn new() -> (r: CommandRouter)
        ensures
            r.wf(),
            r@ == Map::<(Seq<char>, Seq<char>), CommandHandle>::empty(),
    {
        CommandRouter { devices: Vec::new() }
    }

    /// Remove the entry of `id`, if any, and leave the table without any
    /// entry under that identity.
    fn remove_entry(&mut self, id: &Id)
        requires
            old(self).wf(),
        ensures
            final(self).wf(),
            final(self)@ == old(self)@.remove(id@),
            forall|j: int|
                0 <= j < final(self).devices@.len() ==> final(self).devices@[j].0@ != id@,
    {
        let n = self.devices.len();
        let mut i: usize = 0;
        while i < n
            invariant
                self.devices@ == old(self).devices@,
                n == self.devices@.len(),
                unique_keys(self.devices@),
                i <= n,
                forall|j: int| 0 <= j < i ==> self.devices@[j].0@ != id@,
            decreases n - i,
        {
            if self.devices[i].0.same_as(id) {
                proof {
                    lemma_entries_map_remove(self.devices@, i as int);
                }
                self.devices.remove(i);
                proof {
                    assert forall|j: int|
                        0 <= j < self.devices@.len() implies self.devices@[j].0@ != id@ by {
                        if j < i {
                        } else {
                            assert(self.devices@[j] == old(self).devices@[j + 1]);
                        }
                    }
                }
                return;
            }
            i += 1;
        }
        proof {
            lemma_entries_map_dom(self.devices@, id@);
            assert(!self@.contains_key(id@));
            assert(self@.remove(id@) =~= self@);
        }
    }

    /// Insert or replace the handle of `id`: a new subscription displaces an
    /// older one rather than being rejected.
    pub fn subscribe(&mut self, id: Id, handle: CommandHandle)
        requires
            old(self).wf(),
        ensures
            final(self).wf(),
            final(self)@ == old(self)@.insert(id@, handle),
    {
        self.remove_entry(&id);
        let ghost mid = self.devices@;
        self.devices.push((id, handle));
        proof {
            assert(self.devices@.drop_last() =~= mid);
            assert(self@ =~= entries_map(mid).insert(self.devices@.last().0@, handle));
            assert(self@ =~= old(self)@.remove(self.devices@.last().0@).insert(
                self.devices@.last().0@,
                handle,
            ));
        }
    }

    /// Remove the entry of `id` if present; without one this is a no-op.
    /// Removal is unconditional: a late unsubscribe from a superseded session
    /// also removes a newer subscriber's entry.
    pub fn unsubscribe(&mut self, id: &Id)
        requires
            old(self).wf(),
        ensures
            final(self).wf(),
            final(self)@ == old(self)@.remove(id@),
    {
        self.remove_entry(id);
    }

    /// Whether an identity currently has a live handle.
    pub fn contains(&self, id: &Id) -> (r: bool)
        requires
            self.wf(),
        ensures
            r == self@.contains_key(id@),
    {
        let n = self.devices.len();
        let mut i: usize = 0;
        while i < n
            invariant
                n == self.devices@.len(),
                unique_keys(self.devices@),
                i <= n,
                forall|j: int| 0 <= j < i ==> self.devices@[j].0@ != id@,
            decreases n - i,
        {
            if self.devices[i].0.same_as(id) {
                proof {
                    lemma_entries_map_at(self.devices@, i as int);
                }
                return true;
            }
            i += 1;
        }
        proof {
            lemma_entries_map_dom(self.devices@, id@);
        }
        false
    }

    /// Route a command to the handle of `id`, without blocking and without
    /// touching the table: with no subscriber the command is simply not
    /// delivered, and a failed delivery leaves the entry for its own session
    /// to clean up.
    pub fn route(&self, id: &Id, command: String) -> (delivered: bool)
        requires
            self.wf(),
        ensures
            !self@.contains_key(id@) ==> !delivered,
    {
        let n = self.devices.len();
        let mut i: usize = 0;
        while i < n
            invariant
                n == self.devices@.len(),
                unique_keys(self.devices@),
                i <= n,
                forall|j: int| 0 <= j < i ==> self.devices@[j].0@ != id@,
            decreases n - i,
        {
            if self.devices[i].0.same_as(id) {
                proof {
                    lemma_entries_map_at(self.devices@, i as int);
                }
                return self.devices[i].1.try_deliver(command);
            }
            i += 1;
        }
        proof {
            lemma_entries_map_dom(self.devices@, id@);
        }
        false
    }
}

} // verus!
