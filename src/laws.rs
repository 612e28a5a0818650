use vstd::prelude::*;

use crate::app::{AppState, Message};
use crate::config::{
    has_link, lemma_link_witness, link_first_at, link_index, linked_of,
    lemma_without_paired_subset, paired_has, record, with_paired,
};
use crate::device::{
    device_index, first_at, has_device, lemma_device_witness, lemma_first_at_unique,
    lemma_unique_index, session_of, set_pairing, unique_ids, DeviceId, DeviceResponse,
    DeviceState, PairingState,
};
use crate::popup::Popup;

verus! {

/// Asking to pair the same device twice leaves the state as asking once
/// does; the second request still reaches the backend but saves nothing.
pub proof fn lemma_pairing_idempotent(s: AppState, d: DeviceId)
    requires
        s.wf(),
    ensures
        s.next(Message::PairDevice(d)).next(Message::PairDevice(d)) == s.next(Message::PairDevice(d)),
        s.next(Message::PairDevice(d)).effects(Message::PairDevice(d)).outbound == s.effects(
            Message::PairDevice(d),
        ).outbound,
        !s.next(Message::PairDevice(d)).effects(Message::PairDevice(d)).save,
{
    let m = Message::PairDevice(d);
    let t = s.next(m);
    if s.connected && has_device(s.connections, d.id@) {
        let i = device_index(s.connections, d.id@);
        assert(first_at(s.connections, d.id@, i));
        let c = t.connections;
        assert(first_at(c, d.id@, i));
        lemma_first_at_unique(c, d.id@, i);
        assert(set_pairing(c, d.id@, PairingState::Requested) =~= c);
        if !paired_has(s.paired, d.id@) {
            assert(t.paired[s.paired.len() as int].id@ == d.id@);
        }
        assert(paired_has(t.paired, d.id@));
        assert(with_paired(t.paired, d) == t.paired);
    }
}

/// Disconnecting `d` removes its session and leaves the session of every
/// other device exactly as it was.
pub proof fn lemma_disconnect_one(s: AppState, d: DeviceId, other: Seq<char>)
    requires
        s.wf(),
    ensures
        !has_device(s.next(Message::DisconnectDevice(d)).connections, d.id@),
        other != d.id@ ==> session_of(s.next(Message::DisconnectDevice(d)).connections, other)
            == session_of(s.connections, other),
{
    let c = s.connections;
    let r = s.next(Message::DisconnectDevice(d)).connections;
    if has_device(c, d.id@) {
        let i = device_index(c, d.id@);
        assert(first_at(c, d.id@, i));
        assert(r =~= c.remove(i));
        assert(unique_ids(r));
        if has_device(r, d.id@) {
            let k = device_index(r, d.id@);
            assert(first_at(r, d.id@, k));
            if k < i {
                assert(c[k].device_id.id@ == d.id@);
            } else {
                assert(c[k + 1].device_id.id@ == d.id@);
            }
        }
        if other != d.id@ {
            if has_device(c, other) {
                let j = device_index(c, other);
                assert(first_at(c, other, j));
                if j < i {
                    lemma_unique_index(r, other, j);
                } else {
                    assert(j != i);
                    lemma_unique_index(r, other, j - 1);
                }
            }
            if has_device(r, other) {
                let k = device_index(r, other);
                assert(first_at(r, other, k));
                if k < i {
                    lemma_device_witness(c, other, k);
                } else {
                    lemma_device_witness(c, other, k + 1);
                }
            }
        }
    }
}

/// Two toggles from a closed popup leave it closed.
pub proof fn lemma_toggle_twice_closed(p: Popup)
    requires
        p.wf(),
        p.current is None,
    ensures
        p.toggled().toggled().current is None,
        p.toggled().toggled().wf(),
{
}

/// Closing an open popup and opening it again yields a window identifier
/// greater than, hence different from, the one just destroyed.
pub proof fn lemma_toggle_fresh_id(p: Popup)
    requires
        p.wf(),
        p.current is Some,
    ensures
        p.toggled().toggled().current matches Some(n) ==> p.current->0 < n,
{
}

/// At most one entry of `s` holds `id`.
pub open spec fn at_most_one_link(s: Seq<crate::config::Linked>, id: Seq<char>) -> bool {
    forall|i: int, j: int|
        0 <= i < s.len() && 0 <= j < s.len() && s[i].device_id.id@ == id && s[j].device_id.id@ == id
            ==> i == j
}

/// Exactly one entry of `s` holds `id`.
pub open spec fn exactly_one_link(s: Seq<crate::config::Linked>, id: Seq<char>) -> bool {
    has_link(s, id) && at_most_one_link(s, id)
}

/// Recording a device keeps a single entry for it.
proof fn lemma_record_single(s: Seq<crate::config::Linked>, l: crate::config::Linked)
    requires
        at_most_one_link(s, l.device_id.id@),
    ensures
        exactly_one_link(record(s, l), l.device_id.id@),
{
    let id = l.device_id.id@;
    let r = record(s, l);
    if !has_link(s, id) {
        assert forall|j: int| 0 <= j < s.len() implies s[j].device_id.id@ != id by {
            if s[j].device_id.id@ == id {
                lemma_link_witness(s, id, j);
            }
        }
        lemma_link_witness(r, id, s.len() as int);
    } else {
        let i = link_index(s, id);
        assert(link_first_at(s, id, i));
        assert(r[i].device_id.id@ == id);
        lemma_link_witness(r, id, i);
    }
}

/// Two snapshots of one device in a row: its session shows the later one,
/// and its record of past connections keeps a single entry.
pub proof fn lemma_churn(s: AppState, v1: DeviceState, v2: DeviceState)
    requires
        s.wf(),
        v1.device_id.id@ == v2.device_id.id@,
        at_most_one_link(s.last_connections, v1.device_id.id@),
    ensures
        session_of(
            s.next(Message::DeviceUpdate(DeviceResponse::Refresh(v1))).next(
                Message::DeviceUpdate(DeviceResponse::Refresh(v2)),
            ).connections,
            v2.device_id.id@,
        ) == Some(v2),
        exactly_one_link(
            s.next(Message::DeviceUpdate(DeviceResponse::Refresh(v1))).next(
                Message::DeviceUpdate(DeviceResponse::Refresh(v2)),
            ).last_connections,
            v2.device_id.id@,
        ),
{
    let id = v2.device_id.id@;
    let t1 = s.next(Message::DeviceUpdate(DeviceResponse::Refresh(v1)));
    let t2 = t1.next(Message::DeviceUpdate(DeviceResponse::Refresh(v2)));
    let c1 = t1.connections;
    if has_device(s.connections, id) {
        let i = device_index(s.connections, id);
        assert(first_at(s.connections, id, i));
        assert(first_at(c1, id, i));
    } else {
        assert forall|j: int| 0 <= j < s.connections.len() implies s.connections[j].device_id.id@
            != id by {
            if s.connections[j].device_id.id@ == id {
                lemma_device_witness(s.connections, id, j);
            }
        }
        assert(first_at(c1, id, s.connections.len() as int));
    }
    let k = device_index(c1, id);
    lemma_device_witness(c1, id, choose|j: int| first_at(c1, id, j));
    assert(first_at(c1, id, k));
    assert(first_at(t2.connections, id, k));
    lemma_first_at_unique(t2.connections, id, k);
    lemma_record_single(s.last_connections, linked_of(v1));
    lemma_record_single(t1.last_connections, linked_of(v2));
}

/// The state after applying each of `ms` in order.
pub open spec fn run(s: AppState, ms: Seq<Message>) -> AppState
    decreases ms.len(),
{
    if ms.len() == 0 {
        s
    } else {
        run(s, ms.drop_last()).next(ms.last())
    }
}

/// `m` is a snapshot of the device `id`.
pub open spec fn announces(m: Message, id: Seq<char>) -> bool {
    match m {
        Message::DeviceUpdate(DeviceResponse::Refresh(st)) => st.device_id.id@ == id,
        _ => false,
    }
}

/// Some message of `ms` is a snapshot of the device `id`.
pub open spec fn announced(ms: Seq<Message>, id: Seq<char>) -> bool {
    exists|i: int| 0 <= i < ms.len() && announces(ms[i], id)
}

/// No message of `ms` replaces the configuration from outside.
pub open spec fn no_reload(ms: Seq<Message>) -> bool {
    forall|i: int| 0 <= i < ms.len() ==> !(ms[i] is UpdateConfig)
}

/// One message that does not reload the configuration brings in a session
/// only for a device it announces, and an approval only for a device with
/// a session.
proof fn lemma_step_sources(u: AppState, m: Message, id: Seq<char>)
    requires
        !(m is UpdateConfig),
    ensures
        has_device(u.next(m).connections, id) ==> has_device(u.connections, id) || announces(m, id),
        paired_has(u.next(m).paired, id) ==> paired_has(u.paired, id) || has_device(
            u.connections,
            id,
        ),
{
    let t = u.next(m);
    let c = u.connections;
    if has_device(t.connections, id) {
        let k = device_index(t.connections, id);
        assert(first_at(t.connections, id, k));
        match m {
            Message::DeviceUpdate(DeviceResponse::Refresh(st)) => {
                if has_device(c, st.device_id.id@) {
                    let i = device_index(c, st.device_id.id@);
                    if k != i {
                        lemma_device_witness(c, id, k);
                    }
                } else if k < c.len() {
                    lemma_device_witness(c, id, k);
                }
            },
            Message::DisconnectDevice(d) => {
                if has_device(c, d.id@) {
                    let i = device_index(c, d.id@);
                    if k < i {
                        lemma_device_witness(c, id, k);
                    } else {
                        lemma_device_witness(c, id, k + 1);
                    }
                }
            },
            Message::PairDevice(d) => {
                if t.connections != c {
                    lemma_device_witness(c, id, k);
                }
            },
            Message::UnPairDevice(d) => {
                if t.connections != c {
                    lemma_device_witness(c, id, k);
                }
            },
            _ => {},
        }
    }
    if paired_has(t.paired, id) {
        match m {
            Message::PairDevice(d) => {
                if t.paired != u.paired {
                    let j = choose|j: int| 0 <= j < t.paired.len() && t.paired[j].id@ == id;
                    if j == u.paired.len() {
                        assert(d.id@ == id);
                    } else {
                        assert(u.paired[j].id@ == id);
                    }
                }
            },
            Message::UnPairDevice(d) => {
                if u.connected {
                    lemma_without_paired_subset(u.paired, d.id@, id);
                }
            },
            _ => {},
        }
    }
}

/// Over any run of messages that does not reload the configuration, a
/// device becomes approved only if it was approved already, had a session
/// already, or was announced by the backend during the run; likewise a
/// session exists only for a device that had one or was announced.
pub proof fn lemma_no_dangling_pair(s: AppState, ms: Seq<Message>, id: Seq<char>)
    requires
        no_reload(ms),
    ensures
        paired_has(run(s, ms).paired, id) ==> paired_has(s.paired, id) || has_device(
            s.connections,
            id,
        ) || announced(ms, id),
        has_device(run(s, ms).connections, id) ==> has_device(s.connections, id) || announced(
            ms,
            id,
        ),
    decreases ms.len(),
{
    if ms.len() > 0 {
        let front = ms.drop_last();
        assert(no_reload(front)) by {
            assert forall|i: int| 0 <= i < front.len() implies !(front[i] is UpdateConfig) by {
                assert(front[i] == ms[i]);
            }
        }
        lemma_no_dangling_pair(s, front, id);
        assert(!(ms[ms.len() - 1] is UpdateConfig));
        lemma_step_sources(run(s, front), ms.last(), id);
        if announced(front, id) {
            let i = choose|i: int| 0 <= i < front.len() && announces(front[i], id);
            assert(ms[i] == front[i]);
        }
        if announces(ms.last(), id) {
            assert(announces(ms[ms.len() - 1], id));
        }
    }
}

} // verus!
