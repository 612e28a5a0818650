use vstd::prelude::*;

verus! {

/// A remote device: a stable identifier assigned by the backend and a
/// human-readable name. Only `id` is used as a key; `name` may change.
#[derive(Debug, Clone)]
pub struct DeviceId {
    pub id: String,
    pub name: String,
}

impl DeviceId {
    /// A field-by-field copy.
    pub fn duplicate(&self) -> (r: DeviceId)
        ensures
            r == *self,
    {
        DeviceId { id: self.id.clone(), name: self.name.clone() }
    }
}

#[derive(Debug, Clone, Copy, PartialEq, Eq, Structural)]
pub enum PairingState {
    Unpaired,
    Requested,
    Paired,
}

/// The transport over which a device was reached.
#[derive(Debug, Clone, Copy, PartialEq, Eq, Structural)]
pub enum LinkKind {
    Lan,
    Bluetooth,
}

#[derive(Debug, Clone, Copy, PartialEq, Eq, Structural)]
pub struct Battery {
    pub charge: i32,
    pub is_charging: bool,
}

/// The signal reported for one network handle.
#[derive(Debug, Clone)]
pub struct SignalStrength {
    pub handle: String,
    pub network_type: String,
    pub signal_strength: i32,
}

#[derive(Debug, Clone)]
pub struct Connectivity {
    pub signal_strengths: Vec<SignalStrength>,
}

/// A snapshot of one device as the backend last reported it.
#[derive(Debug, Clone)]
pub struct DeviceState {
    pub device_id: DeviceId,
    pub link: LinkKind,
    pub connectivity: Option<Connectivity>,
    pub battery: Option<Battery>,
    pub pairing_state: PairingState,
}

/// What the backend reports about devices.
#[derive(Debug, Clone)]
pub enum DeviceResponse {
    Refresh(DeviceState),
    SyncClipboard(String),
}

/// What the library asks the backend to do with one device.
#[derive(Debug, Clone, PartialEq, Eq)]
pub enum DeviceAction {
    Pair,
    UnPair,
    Disconnect,
    Ping(String),
}

/// `i` is the first position of `s` that holds a session for `id`.
pub open spec fn first_at(s: Seq<DeviceState>, id: Seq<char>, i: int) -> bool {
    &&& 0 <= i < s.len()
    &&& s[i].device_id.id@ == id
    &&& forall|j: int| 0 <= j < i ==> s[j].device_id.id@ != id
}

pub open spec fn has_device(s: Seq<DeviceState>, id: Seq<char>) -> bool {
    exists|i: int| first_at(s, id, i)
}

/// The position of the session for `id` (meaningful when `has_device`).
pub open spec fn device_index(s: Seq<DeviceState>, id: Seq<char>) -> int {
    choose|i: int| first_at(s, id, i)
}

/// The session held for `id`, if any.
pub open spec fn session_of(s: Seq<DeviceState>, id: Seq<char>) -> Option<DeviceState> {
    if has_device(s, id) {
        Some(s[device_index(s, id)])
    } else {
        None
    }
}

/// No two sessions share an identifier.
pub open spec fn unique_ids(s: Seq<DeviceState>) -> bool {
    forall|i: int, j: int|
        0 <= i < s.len() && 0 <= j < s.len() && i != j ==> s[i].device_id.id@ != s[j].device_id.id@
}

/// The sessions after a fresh snapshot: it replaces the session with its
/// identifier, or joins the end when the identifier is new.
pub open spec fn upsert(s: Seq<DeviceState>, st: DeviceState) -> Seq<DeviceState> {
    if has_device(s, st.device_id.id@) {
        s.update(device_index(s, st.device_id.id@), st)
    } else {
        s.push(st)
    }
}

/// The sessions without the one for `id`.
pub open spec fn remove_device(s: Seq<DeviceState>, id: Seq<char>) -> Seq<DeviceState> {
    if has_device(s, id) {
        s.remove(device_index(s, id))
    } else {
        s
    }
}

/// The sessions with the pairing state of the one for `id` set to `p`.
pub open spec fn set_pairing(s: Seq<DeviceState>, id: Seq<char>, p: PairingState) -> Seq<DeviceState> {
    if has_device(s, id) {
        let i = device_index(s, id);
        s.update(i, DeviceState { pairing_state: p, ..s[i] })
    } else {
        s
    }
}

/// A first position is the only first position.
pub proof fn lemma_first_at_unique(s: Seq<DeviceState>, id: Seq<char>, i: int)
    requires
        first_at(s, id, i),
    ensures
        has_device(s, id),
        device_index(s, id) == i,
{
    let k = device_index(s, id);
    assert(first_at(s, id, k));
    if k < i {
        assert(s[k].device_id.id@ != id);
    } else if i < k {
        assert(s[i].device_id.id@ != id);
    }
}

/// A session for `id` anywhere means there is a first one.
pub proof fn lemma_device_witness(s: Seq<DeviceState>, id: Seq<char>, j: int)
    requires
        0 <= j < s.len(),
        s[j].device_id.id@ == id,
    ensures
        has_device(s, id),
    decreases j,
{
    if forall|k: int| 0 <= k < j ==> s[k].device_id.id@ != id {
        assert(first_at(s, id, j));
    } else {
        let k = choose|k: int| 0 <= k < j && s[k].device_id.id@ == id;
        lemma_device_witness(s, id, k);
    }
}

/// Under unique identifiers, any position holding `id` is the first one.
pub proof fn lemma_unique_index(s: Seq<DeviceState>, id: Seq<char>, i: int)
    requires
        unique_ids(s),
        0 <= i < s.len(),
        s[i].device_id.id@ == id,
    ensures
        has_device(s, id),
        device_index(s, id) == i,
{
    assert(first_at(s, id, i));
    lemma_first_at_unique(s, id, i);
}

/// Finds the position of the session for `id`.
pub fn find_device(s: &Vec<DeviceState>, id: &String) -> (r: Option<usize>)
    ensures
        r is Some <==> has_device(s@, id@),
        r matches Some(i) ==> i == device_index(s@, id@) && first_at(s@, id@, i as int),
        r is None ==> forall|j: int| 0 <= j < s@.len() ==> s@[j].device_id.id@ != id@,
{
    let mut i: usize = 0;
    while i < s.len()
        invariant
            0 <= i <= s.len(),
            forall|j: int| 0 <= j < i ==> s@[j].device_id.id@ != id@,
        decreases s.len() - i,
    {
        if s[i].device_id.id == *id {
            proof {
                lemma_first_at_unique(s@, id@, i as int);
            }
            return Some(i);
        }
        i = i + 1;
    }
    assert(!has_device(s@, id@));
    None
}

/// Stores a fresh snapshot: it replaces the session with the same
/// identifier, or joins the end when the identifier is new.
pub fn upsert_session(s: &mut Vec<DeviceState>, st: DeviceState)
    requires
        unique_ids(old(s)@),
    ensures
        final(s)@ == upsert(old(s)@, st),
        unique_ids(final(s)@),
{
    match find_device(s, &st.device_id.id) {
        Some(i) => {
            s.set(i, st);
        },
        None => {
            s.push(st);
        },
    }
}

/// Drops the session for `id`, if there is one.
pub fn remove_session(s: &mut Vec<DeviceState>, id: &String)
    requires
        unique_ids(old(s)@),
    ensures
        final(s)@ == remove_device(old(s)@, id@),
        unique_ids(final(s)@),
{
    match find_device(s, id) {
        Some(i) => {
            s.remove(i);
        },
        None => {},
    }
}

/// Sets the pairing state of the session for `id`, if there is one.
pub fn set_pairing_state(s: &mut Vec<DeviceState>, id: &String, p: PairingState)
    requires
        unique_ids(old(s)@),
    ensures
        final(s)@ == set_pairing(old(s)@, id@, p),
        unique_ids(final(s)@),
{
    match find_device(s, id) {
        Some(i) => {
            s[i].pairing_state = p;
        },
        None => {},
    }
}

} // verus!
