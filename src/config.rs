use vstd::prelude::*;

use crate::device::{DeviceId, DeviceState, LinkKind};

verus! {

/// A device recorded as seen, with the name and link it was last seen with.
#[derive(Debug, Clone)]
pub struct Linked {
    pub device_id: DeviceId,
    pub link: LinkKind,
}

/// The durable part of the applet's state.
#[derive(Debug, Clone)]
pub struct ConnectConfig {
    /// Devices seen, at most one entry per identifier when grown by `record`.
    pub last_connections: Vec<Linked>,
    /// Devices the user approved.
    pub paired: Vec<DeviceId>,
}

/// The record that a snapshot leaves in `last_connections`.
pub open spec fn linked_of(st: DeviceState) -> Linked {
    Linked { device_id: st.device_id, link: st.link }
}

pub open spec fn link_first_at(s: Seq<Linked>, id: Seq<char>, i: int) -> bool {
    &&& 0 <= i < s.len()
    &&& s[i].device_id.id@ == id
    &&& forall|j: int| 0 <= j < i ==> s[j].device_id.id@ != id
}

pub open spec fn has_link(s: Seq<Linked>, id: Seq<char>) -> bool {
    exists|i: int| link_first_at(s, id, i)
}

pub open spec fn link_index(s: Seq<Linked>, id: Seq<char>) -> int {
    choose|i: int| link_first_at(s, id, i)
}

/// `a` and `b` store the same name and link.
pub open spec fn same_record(a: Linked, b: Linked) -> bool {
    a.device_id.name@ == b.device_id.name@ && a.link == b.link
}

/// Recording `l` changes `s`: its identifier is new, or its stored name or
/// link differs.
pub open spec fn record_changes(s: Seq<Linked>, l: Linked) -> bool {
    !has_link(s, l.device_id.id@) || !same_record(s[link_index(s, l.device_id.id@)], l)
}

/// `s` after recording `l`: a new identifier joins the end; a known one has
/// its entry refreshed in place.
pub open spec fn record(s: Seq<Linked>, l: Linked) -> Seq<Linked> {
    if !has_link(s, l.device_id.id@) {
        s.push(l)
    } else if same_record(s[link_index(s, l.device_id.id@)], l) {
        s
    } else {
        s.update(link_index(s, l.device_id.id@), l)
    }
}

/// Some approved device has identifier `id`.
pub open spec fn paired_has(p: Seq<DeviceId>, id: Seq<char>) -> bool {
    exists|i: int| 0 <= i < p.len() && p[i].id@ == id
}

/// `p` with `d` approved; unchanged when its identifier is already there.
pub open spec fn with_paired(p: Seq<DeviceId>, d: DeviceId) -> Seq<DeviceId> {
    if paired_has(p, d.id@) {
        p
    } else {
        p.push(d)
    }
}

/// Holds of the entries whose identifier is not `id`.
pub open spec fn other_than(id: Seq<char>) -> spec_fn(DeviceId) -> bool {
    |x: DeviceId| x.id@ != id
}

/// `p` without any entry for `id`.
pub open spec fn without_paired(p: Seq<DeviceId>, id: Seq<char>) -> Seq<DeviceId> {
    p.filter(other_than(id))
}

pub proof fn lemma_link_first_unique(s: Seq<Linked>, id: Seq<char>, i: int)
    requires
        link_first_at(s, id, i),
    ensures
        has_link(s, id),
        link_index(s, id) == i,
{
    let k = link_index(s, id);
    assert(link_first_at(s, id, k));
    if k < i {
        assert(s[k].device_id.id@ != id);
    } else if i < k {
        assert(s[i].device_id.id@ != id);
    }
}

/// An entry for `id` anywhere means there is a first one.
pub proof fn lemma_link_witness(s: Seq<Linked>, id: Seq<char>, j: int)
    requires
        0 <= j < s.len(),
        s[j].device_id.id@ == id,
    ensures
        has_link(s, id),
    decreases j,
{
    if forall|k: int| 0 <= k < j ==> s[k].device_id.id@ != id {
        assert(link_first_at(s, id, j));
    } else {
        let k = choose|k: int| 0 <= k < j && s[k].device_id.id@ == id;
        lemma_link_witness(s, id, k);
    }
}

/// Dropping entries never brings an identifier in.
pub proof fn lemma_without_paired_subset(p: Seq<DeviceId>, id: Seq<char>, other: Seq<char>)
    requires
        paired_has(without_paired(p, id), other),
    ensures
        paired_has(p, other),
    decreases p.len(),
{
    reveal(Seq::filter);
    let q = without_paired(p, id);
    let rest = without_paired(p.drop_last(), id);
    let i = choose|i: int| 0 <= i < q.len() && q[i].id@ == other;
    if p.len() > 0 {
        if i < rest.len() && q[i] == rest[i] {
            lemma_without_paired_subset(p.drop_last(), id, other);
            let k = choose|k: int| 0 <= k < p.drop_last().len() && p.drop_last()[k].id@ == other;
            assert(p[k].id@ == other);
        } else {
            assert(p[p.len() - 1].id@ == other);
        }
    }
}

fn find_link(s: &Vec<Linked>, id: &String) -> (r: Option<usize>)
    ensures
        r is Some <==> has_link(s@, id@),
        r matches Some(i) ==> i == link_index(s@, id@),
{
    let mut i: usize = 0;
    while i < s.len()
        invariant
            0 <= i <= s.len(),
            forall|j: int| 0 <= j < i ==> s@[j].device_id.id@ != id@,
        decreases s.len() - i,
    {
        if s[i].device_id.id == *id {
            proof {
                lemma_link_first_unique(s@, id@, i as int);
            }
            return Some(i);
        }
        i = i + 1;
    }
    assert(!has_link(s@, id@));
    None
}

fn find_paired(p: &Vec<DeviceId>, id: &String) -> (r: bool)
    ensures
        r == paired_has(p@, id@),
{
    let mut i: usize = 0;
    while i < p.len()
        invariant
            0 <= i <= p.len(),
            forall|j: int| 0 <= j < i ==> p@[j].id@ != id@,
        decreases p.len() - i,
    {
        if p[i].id == *id {
            return true;
        }
        i = i + 1;
    }
    false
}

impl ConnectConfig {
    pub fn new() -> (r: ConnectConfig)
        ensures
            r.last_connections@.len() == 0,
            r.paired@.len() == 0,
    {
        ConnectConfig { last_connections: Vec::new(), paired: Vec::new() }
    }

    /// The configuration to start from, given what the store yielded: the
    /// stored entry when there is one, an empty configuration otherwise.
    pub fn config(loaded: Option<ConnectConfig>) -> (r: ConnectConfig)
        ensures
            loaded matches Some(c) ==> r == c,
            loaded is None ==> r.last_connections@.len() == 0 && r.paired@.len() == 0,
    {
        match loaded {
            Some(c) => c,
            None => ConnectConfig::new(),
        }
    }

    /// Notes that `l` was seen; returns whether the record changed.
    pub fn record_connection(&mut self, l: Linked) -> (changed: bool)
        ensures
            final(self).last_connections@ == record(old(self).last_connections@, l),
            final(self).paired == old(self).paired,
            changed == record_changes(old(self).last_connections@, l),
    {
        match find_link(&self.last_connections, &l.device_id.id) {
            None => {
                self.last_connections.push(l);
                true
            },
            Some(i) => {
                let same = self.last_connections[i].device_id.name == l.device_id.name
                    && self.last_connections[i].link == l.link;
                if same {
                    false
                } else {
                    self.last_connections.set(i, l);
                    true
                }
            },
        }
    }

    /// Approves `d`; returns whether the approved list changed.
    pub fn add_paired(&mut self, d: DeviceId) -> (changed: bool)
        ensures
            final(self).paired@ == with_paired(old(self).paired@, d),
            final(self).last_connections == old(self).last_connections,
            changed == !paired_has(old(self).paired@, d.id@),
    {
        if find_paired(&self.paired, &d.id) {
            false
        } else {
            self.paired.push(d);
            true
        }
    }

    /// Withdraws the approval of `id`; returns whether the approved list changed.
    pub fn remove_paired(&mut self, id: &String) -> (changed: bool)
        ensures
            final(self).paired@ == without_paired(old(self).paired@, id@),
            final(self).last_connections == old(self).last_connections,
            changed == paired_has(old(self).paired@, id@),
    {
        let mut kept: Vec<DeviceId> = Vec::new();
        let mut found = false;
        let mut i: usize = 0;
        while i < self.paired.len()
            invariant
                0 <= i <= self.paired.len(),
                kept@ == self.paired@.subrange(0, i as int).filter(other_than(id@)),
                found == (exists|j: int| 0 <= j < i && self.paired@[j].id@ == id@),
            decreases self.paired.len() - i,
        {
            proof {
                reveal(Seq::filter);
            }
            let ghost next = self.paired@.subrange(0, i + 1);
            assert(next.drop_last() =~= self.paired@.subrange(0, i as int));
            assert(next.last() == self.paired@[i as int]);
            if self.paired[i].id == *id {
                found = true;
                assert(!other_than(id@)(next.last()));
            } else {
                kept.push(self.paired[i].duplicate());
                assert(other_than(id@)(next.last()));
            }
            i = i + 1;
        }
        assert(self.paired@.subrange(0, i as int) =~= self.paired@);
        self.paired = kept;
        found
    }
}

} // verus!
