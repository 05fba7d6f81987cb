//! The device registry: the set of currently attached controllers, each
//! paired with a flag saying whether it exposes haptic capability.
//!
//! An attached controller and its optional haptic handle live in one record,
//! so the controller list and the haptic list cannot fall out of step: both
//! are projections of the same sequence of entries. The hardware handles
//! themselves stay with the hosting program, which correlates them by the
//! stable instance identifier carried here.

use vstd::prelude::*;

verus! {

/// One attached controller: its stable instance identifier, its reported
/// display name, and whether a haptic handle was acquired for it.
#[derive(Clone, Debug, PartialEq, Eq)]
pub struct ControllerEntry {
    pub instance_id: u32,
    pub name: String,
    pub has_haptic: bool,
}

/// Outbound notification that a controller was attached or detached.
#[derive(Clone, Debug, PartialEq, Eq)]
pub struct StatusEvent {
    pub connected: bool,
    pub name: String,
}

/// The mathematical content of a status notification.
pub struct StatusModel {
    pub connected: bool,
    pub name: Seq<char>,
}

impl View for StatusEvent {
    type V = StatusModel;

    open spec fn view(&self) -> StatusModel {
        StatusModel { connected: self.connected, name: self.name@ }
    }
}

/// Whether some entry of the sequence carries the given instance identifier.
pub open spec fn contains_id(s: Seq<ControllerEntry>, instance_id: u32) -> bool {
    exists|i: int| 0 <= i < s.len() && s[i].instance_id == instance_id
}

/// The position of the first entry carrying the given instance identifier,
/// or -1 when there is none.
pub open spec fn find_index(s: Seq<ControllerEntry>, instance_id: u32) -> int
    decreases s.len(),
{
    if s.len() == 0 {
        -1
    } else if s[0].instance_id == instance_id {
        0
    } else {
        let rest = find_index(s.subrange(1, s.len() as int), instance_id);
        if rest == -1 {
            -1
        } else {
            rest + 1
        }
    }
}

/// `find_index` finds the first match exactly when one exists.
pub proof fn lemma_find_index_spec(s: Seq<ControllerEntry>, instance_id: u32)
    ensures
        (find_index(s, instance_id) == -1) <==> !contains_id(s, instance_id),
        contains_id(s, instance_id) ==> {
            let i = find_index(s, instance_id);
            &&& 0 <= i < s.len()
            &&& s[i].instance_id == instance_id
            &&& forall|j: int| 0 <= j < i ==> s[j].instance_id != instance_id
        },
    decreases s.len(),
{
    if s.len() == 0 {
    } else if s[0].instance_id == instance_id {
        assert(contains_id(s, instance_id));
    } else {
        let rest = s.subrange(1, s.len() as int);
        lemma_find_index_spec(rest, instance_id);
        if contains_id(s, instance_id) {
            let w = choose|i: int| 0 <= i < s.len() && s[i].instance_id == instance_id;
            assert(rest[w - 1].instance_id == instance_id);
            assert(contains_id(rest, instance_id));
        }
        if contains_id(rest, instance_id) {
            let w = choose|i: int| 0 <= i < rest.len() && rest[i].instance_id == instance_id;
            assert(s[w + 1].instance_id == instance_id);
            assert(contains_id(s, instance_id));
        }
        if contains_id(s, instance_id) {
            let f = find_index(s, instance_id);
            assert(f == find_index(rest, instance_id) + 1);
            assert(s[f] == rest[f - 1]);
            assert forall|j: int| 0 <= j < f implies s[j].instance_id != instance_id by {
                if j >= 1 {
                    assert(s[j] == rest[j - 1]);
                }
            }
        }
    }
}

/// The controller list as downstream consumers see it: the identifier of
/// each attached controller, in attachment order.
pub open spec fn controller_ids(s: Seq<ControllerEntry>) -> Seq<u32> {
    s.map_values(|e: ControllerEntry| e.instance_id)
}

/// The haptic list as the dispatcher sees it: the capability flag of each
/// attached controller, in attachment order.
pub open spec fn haptic_flags(s: Seq<ControllerEntry>) -> Seq<bool> {
    s.map_values(|e: ControllerEntry| e.has_haptic)
}

/// Registry invariant: however the registry was built up, the controller
/// list and the haptic list have the same length and are index-aligned.
/// Both are projections of the one entry sequence, so they cannot diverge.
pub proof fn lemma_parallel_lists_aligned(s: Seq<ControllerEntry>)
    ensures
        controller_ids(s).len() == haptic_flags(s).len(),
        forall|i: int| 0 <= i < s.len() ==> #[trigger] controller_ids(s)[i] == s[i].instance_id,
        forall|i: int| 0 <= i < s.len() ==> #[trigger] haptic_flags(s)[i] == s[i].has_haptic,
{
}

/// Hot-plug round trip: attaching a device whose identifier is not yet
/// present and then removing that same identifier locates exactly the new
/// entry — at the index where both the controller slot and the haptic slot
/// were added — with the same name, and returns the entry sequence to what
/// it was before.
pub proof fn lemma_hotplug_round_trip(s: Seq<ControllerEntry>, e: ControllerEntry)
    requires
        !contains_id(s, e.instance_id),
    ensures
        contains_id(s.push(e), e.instance_id),
        find_index(s.push(e), e.instance_id) == s.len(),
        s.push(e)[find_index(s.push(e), e.instance_id)].name == e.name,
        s.push(e).remove(s.len() as int) == s,
{
    let t = s.push(e);
    assert(t[s.len() as int] == e);
    assert(contains_id(t, e.instance_id));
    lemma_find_index_spec(t, e.instance_id);
    let f = find_index(t, e.instance_id);
    if f < s.len() as int {
        assert(t[f] == s[f]);
        assert(contains_id(s, e.instance_id));
    }
    assert(t.remove(s.len() as int) =~= s);
}

/// The registry of attached controllers, in attachment order.
pub struct Registry {
    entries: Vec<ControllerEntry>,
}

impl View for Registry {
    type V = Seq<ControllerEntry>;

    closed spec fn view(&self) -> Seq<ControllerEntry> {
        self.entries@
    }
}

impl Registry {
    /// An empty registry.
    pub fn new() -> (r: Self)
        ensures
            r@ == Seq::<ControllerEntry>::empty(),
    {
        Registry { entries: Vec::new() }
    }

    /// How many controllers are attached.
    pub fn len(&self) -> (n: usize)
        ensures
            n == self@.len(),
    {
        self.entries.len()
    }

    /// Read access to the entry at a position.
    pub fn entry_at(&self, i: usize) -> (e: &ControllerEntry)
        requires
            i < self@.len(),
        ensures
            *e == self@[i as int],
    {
        &self.entries[i]
    }

    /// Records a controller that the hardware layer opened successfully:
    /// appends its entry and returns the connected-status notification to
    /// emit, carrying the device's reported name.
    pub fn open_device(&mut self, instance_id: u32, name: String, has_haptic: bool) -> (ev:
        StatusEvent)
        ensures
            final(self)@ == old(self)@.push(
                (ControllerEntry { instance_id, name, has_haptic }),
            ),
            ev.connected,
            ev.name@ == name@,
    {
        let ev = StatusEvent { connected: true, name: name.clone() };
        self.entries.push(ControllerEntry { instance_id, name, has_haptic });
        ev
    }

    /// Removes the first entry carrying the given instance identifier, if
    /// any, and returns the disconnected-status notification to emit with
    /// the removed device's name. An unknown identifier is a no-op: the
    /// registry is unchanged and nothing is emitted.
    pub fn remove_device(&mut self, instance_id: u32) -> (ev: Option<StatusEvent>)
        ensures
            contains_id(old(self)@, instance_id) ==> {
                let i = find_index(old(self)@, instance_id);
                &&& final(self)@ == old(self)@.remove(i)
                &&& ev matches Some(e) && !e.connected && e.name@ == old(self)@[i].name@
            },
            !contains_id(old(self)@, instance_id) ==> final(self)@ == old(self)@ && ev is None,
    {
        proof {
            lemma_find_index_spec(self@, instance_id);
        }
        let ghost s = self@;
        let mut i: usize = 0;
        while i < self.entries.len()
            invariant
                i <= s.len(),
                self@ == s,
                old(self)@ == s,
                forall|j: int| 0 <= j < i ==> s[j].instance_id != instance_id,
            decreases s.len() - i,
        {
            if self.entries[i].instance_id == instance_id {
                proof {
                    assert(s[i as int].instance_id == instance_id);
                    assert(contains_id(s, instance_id));
                    lemma_find_index_spec(s, instance_id);
                    let f = find_index(s, instance_id);
                    if f < i as int {
                        assert(s[f].instance_id != instance_id);
                    }
                    if f > i as int {
                        assert(s[i as int].instance_id != instance_id);
                    }
                    assert(f == i as int);
                }
                let removed = self.entries.remove(i);
                return Some(StatusEvent { connected: false, name: removed.name });
            }
            i += 1;
        }
        proof {
            assert forall|k: int| 0 <= k < s.len() implies s[k].instance_id != instance_id by {}
            assert(!contains_id(s, instance_id));
        }
        None
    }
}

} // verus!
