use vstd::prelude::*;

use crate::config::{
    linked_of, paired_has, record, record_changes, with_paired,
    without_paired, ConnectConfig, Linked,
};
use crate::device::{
    device_index, has_device, remove_device, remove_session, set_pairing, set_pairing_state, unique_ids,
    upsert, upsert_session, DeviceAction, DeviceId, DeviceResponse, DeviceState, PairingState,
};
use crate::popup::{Popup, WindowCommand};

verus! {

/// Events about the backend connection itself.
#[derive(Debug, Clone)]
pub enum KdeConnectEvent {
    /// The backend handle and its action sender became available together.
    Connected,
}

/// Everything the applet reacts to, one at a time, in arrival order.
#[derive(Debug, Clone)]
pub enum Message {
    TogglePopup,
    PopupClosed(u64),
    UpdateConfig(ConnectConfig),
    KdeConnect(KdeConnectEvent),
    DeviceUpdate(DeviceResponse),
    DisconnectDevice(DeviceId),
    Broadcast,
    PairDevice(DeviceId),
    UnPairDevice(DeviceId),
    SendPing(DeviceId, String),
}

/// A request to the backend.
#[derive(Debug, Clone)]
pub enum Outbound {
    /// Deliver the action to the device with this identifier.
    Device(String, DeviceAction),
    /// Announce this host on the network.
    Broadcast,
}

/// What the caller carries out after a message has been applied.
#[derive(Debug, Clone)]
pub struct Effects {
    pub window: Option<WindowCommand>,
    pub outbound: Option<Outbound>,
    /// Write the configuration, as it stands after the message, to the store.
    pub save: bool,
    pub clipboard: Option<String>,
}

/// The action a device row offers for pairing.
#[derive(Debug, Clone, Copy, PartialEq, Eq, Structural)]
pub enum PairButton {
    Pair,
    UnPair,
}

/// One device as the popup lists it.
#[derive(Debug, Clone)]
pub struct DeviceRow {
    pub device_id: DeviceId,
    pub button: PairButton,
}

/// A paired device offers to unpair; any other offers to pair.
pub open spec fn button_for(p: PairingState) -> PairButton {
    if p == PairingState::Paired {
        PairButton::UnPair
    } else {
        PairButton::Pair
    }
}

/// The applet's state: the popup, whether the backend is reachable, the
/// live device sessions in first-seen order, and the configuration.
pub struct CosmicConnect {
    popup: Popup,
    config: ConnectConfig,
    connected: bool,
    connections: Vec<DeviceState>,
}

/// The abstract state of a `CosmicConnect`.
pub struct AppState {
    pub popup: Popup,
    pub connected: bool,
    pub connections: Seq<DeviceState>,
    pub last_connections: Seq<Linked>,
    pub paired: Seq<DeviceId>,
}

/// Effects with nothing to carry out.
pub open spec fn quiet() -> Effects {
    Effects { window: None, outbound: None, save: false, clipboard: None }
}

/// Effects that only send `o` to the backend.
pub open spec fn sending(o: Outbound) -> Effects {
    Effects { window: None, outbound: Some(o), save: false, clipboard: None }
}

impl AppState {
    pub open spec fn wf(self) -> bool {
        self.popup.wf() && unique_ids(self.connections)
    }

    /// The state after applying `m`.
    pub open spec fn next(self, m: Message) -> AppState {
        match m {
            Message::TogglePopup => AppState { popup: self.popup.toggled(), ..self },
            Message::PopupClosed(id) => AppState { popup: self.popup.closed(id), ..self },
            Message::UpdateConfig(c) => AppState {
                last_connections: c.last_connections@,
                paired: c.paired@,
                ..self
            },
            Message::KdeConnect(_) => AppState { connected: true, ..self },
            Message::DeviceUpdate(DeviceResponse::Refresh(st)) => AppState {
                connections: upsert(self.connections, st),
                last_connections: record(self.last_connections, linked_of(st)),
                ..self
            },
            Message::DeviceUpdate(DeviceResponse::SyncClipboard(_)) => self,
            Message::DisconnectDevice(d) => AppState {
                connections: remove_device(self.connections, d.id@),
                connected: false,
                ..self
            },
            Message::Broadcast => self,
            Message::PairDevice(d) => if self.connected && has_device(self.connections, d.id@) {
                AppState {
                    connections: set_pairing(self.connections, d.id@, PairingState::Requested),
                    paired: with_paired(self.paired, d),
                    ..self
                }
            } else {
                self
            },
            Message::UnPairDevice(d) => if self.connected {
                AppState {
                    connections: set_pairing(self.connections, d.id@, PairingState::Unpaired),
                    paired: without_paired(self.paired, d.id@),
                    ..self
                }
            } else {
                self
            },
            Message::SendPing(_, _) => self,
        }
    }

    /// The effects of applying `m`.
    pub open spec fn effects(self, m: Message) -> Effects {
        match m {
            Message::TogglePopup => Effects { window: self.popup.toggle_command(), ..quiet() },
            Message::DeviceUpdate(DeviceResponse::Refresh(st)) => Effects {
                save: record_changes(self.last_connections, linked_of(st)),
                ..quiet()
            },
            Message::DeviceUpdate(DeviceResponse::SyncClipboard(c)) => Effects {
                clipboard: Some(c),
                ..quiet()
            },
            Message::DisconnectDevice(d) => sending(Outbound::Device(d.id, DeviceAction::Disconnect)),
            Message::Broadcast => if self.connected {
                sending(Outbound::Broadcast)
            } else {
                quiet()
            },
            Message::PairDevice(d) => if self.connected {
                Effects {
                    save: has_device(self.connections, d.id@) && !paired_has(self.paired, d.id@),
                    ..sending(Outbound::Device(d.id, DeviceAction::Pair))
                }
            } else {
                quiet()
            },
            Message::UnPairDevice(d) => if self.connected {
                Effects {
                    save: paired_has(self.paired, d.id@),
                    ..sending(Outbound::Device(d.id, DeviceAction::UnPair))
                }
            } else {
                quiet()
            },
            Message::SendPing(d, text) => if self.connected {
                sending(Outbound::Device(d.id, DeviceAction::Ping(text)))
            } else {
                quiet()
            },
            _ => quiet(),
        }
    }
}

impl View for CosmicConnect {
    type V = AppState;

    closed spec fn view(&self) -> AppState {
        AppState {
            popup: self.popup,
            connected: self.connected,
            connections: self.connections@,
            last_connections: self.config.last_connections@,
            paired: self.config.paired@,
        }
    }
}

fn quiet_effects() -> (r: Effects)
    ensures
        r == quiet(),
{
    Effects { window: None, outbound: None, save: false, clipboard: None }
}

fn send_effects(o: Outbound) -> (r: Effects)
    ensures
        r == sending(o),
{
    Effects { window: None, outbound: Some(o), save: false, clipboard: None }
}

impl CosmicConnect {
    pub open spec fn wf(&self) -> bool {
        self@.wf()
    }

    /// A fresh applet: popup closed, backend not yet reached, no sessions,
    /// and the configuration the store yielded.
    pub fn init(config: ConnectConfig) -> (r: CosmicConnect)
        ensures
            r.wf(),
            r@.popup.current is None,
            r@.popup.next_id == 0,
            !r@.connected,
            r@.connections.len() == 0,
            r@.last_connections == config.last_connections@,
            r@.paired == config.paired@,
    {
        CosmicConnect { popup: Popup::new(), config, connected: false, connections: Vec::new() }
    }

    pub fn is_connected(&self) -> (r: bool)
        ensures
            r == self@.connected,
    {
        self.connected
    }

    /// The identifier of the open popup window, if any.
    pub fn popup(&self) -> (r: Option<u64>)
        ensures
            r == self@.popup.current,
    {
        self.popup.current
    }

    /// The live sessions, in the order their devices were first seen.
    pub fn connections(&self) -> (r: &Vec<DeviceState>)
        ensures
            r@ == self@.connections,
    {
        &self.connections
    }

    pub fn config(&self) -> (r: &ConnectConfig)
        ensures
            r.last_connections@ == self@.last_connections,
            r.paired@ == self@.paired,
    {
        &self.config
    }

    /// Whether the live session for `device_id` is paired.
    pub fn is_paired(&self, device_id: &DeviceId) -> (r: bool)
        ensures
            r == (has_device(self@.connections, device_id.id@) && self@.connections[device_index(
                self@.connections,
                device_id.id@,
            )].pairing_state == PairingState::Paired),
    {
        match crate::device::find_device(&self.connections, &device_id.id) {
            Some(i) => self.connections[i].pairing_state == PairingState::Paired,
            None => false,
        }
    }

    /// The popup's device list: one row per live session, in session order.
    pub fn rows(&self) -> (r: Vec<DeviceRow>)
        ensures
            r@.len() == self@.connections.len(),
            forall|i: int|
                0 <= i < r@.len() ==> (#[trigger] r@[i]).device_id == self@.connections[i].device_id
                    && r@[i].button == button_for(self@.connections[i].pairing_state),
    {
        let mut rows: Vec<DeviceRow> = Vec::new();
        let mut i: usize = 0;
        while i < self.connections.len()
            invariant
                0 <= i <= self.connections.len(),
                rows@.len() == i,
                forall|j: int|
                    0 <= j < i ==> (#[trigger] rows@[j]).device_id == self@.connections[j].device_id
                        && rows@[j].button == button_for(self@.connections[j].pairing_state),
            decreases self.connections.len() - i,
        {
            let st = &self.connections[i];
            let button = if st.pairing_state == PairingState::Paired {
                PairButton::UnPair
            } else {
                PairButton::Pair
            };
            rows.push(DeviceRow { device_id: st.device_id.duplicate(), button });
            i = i + 1;
        }
        rows
    }

    /// Applies one message and returns what the caller must carry out.
    pub fn update(&mut self, message: Message) -> (r: Effects)
        requires
            old(self).wf(),
        ensures
            final(self).wf(),
            final(self)@ == old(self)@.next(message),
            r == old(self)@.effects(message),
    {
        match message {
            Message::TogglePopup => {
                let w = self.popup.toggle();
                Effects { window: w, outbound: None, save: false, clipboard: None }
            },
            Message::PopupClosed(id) => {
                self.popup.close(id);
                quiet_effects()
            },
            Message::UpdateConfig(c) => {
                self.config = c;
                quiet_effects()
            },
            Message::KdeConnect(KdeConnectEvent::Connected) => {
                self.connected = true;
                quiet_effects()
            },
            Message::DeviceUpdate(DeviceResponse::Refresh(st)) => {
                let l = Linked { device_id: st.device_id.duplicate(), link: st.link };
                let changed = self.config.record_connection(l);
                upsert_session(&mut self.connections, st);
                Effects { window: None, outbound: None, save: changed, clipboard: None }
            },
            Message::DeviceUpdate(DeviceResponse::SyncClipboard(c)) => {
                Effects { window: None, outbound: None, save: false, clipboard: Some(c) }
            },
            Message::DisconnectDevice(d) => {
                remove_session(&mut self.connections, &d.id);
                self.connected = false;
                send_effects(Outbound::Device(d.id, DeviceAction::Disconnect))
            },
            Message::Broadcast => {
                if self.connected {
                    send_effects(Outbound::Broadcast)
                } else {
                    quiet_effects()
                }
            },
            Message::PairDevice(d) => {
                if !self.connected {
                    return quiet_effects();
                }
                let id = d.id.clone();
                let mut save = false;
                if crate::device::find_device(&self.connections, &id).is_some() {
                    set_pairing_state(&mut self.connections, &id, PairingState::Requested);
                    save = self.config.add_paired(d);
                }
                Effects {
                    window: None,
                    outbound: Some(Outbound::Device(id, DeviceAction::Pair)),
                    save,
                    clipboard: None,
                }
            },
            Message::UnPairDevice(d) => {
                if !self.connected {
                    return quiet_effects();
                }
                set_pairing_state(&mut self.connections, &d.id, PairingState::Unpaired);
                let save = self.config.remove_paired(&d.id);
                Effects {
                    window: None,
                    outbound: Some(Outbound::Device(d.id, DeviceAction::UnPair)),
                    save,
                    clipboard: None,
                }
            },
            Message::SendPing(d, text) => {
                if self.connected {
                    send_effects(Outbound::Device(d.id, DeviceAction::Ping(text)))
                } else {
                    quiet_effects()
                }
            },
        }
    }
}

} // verus!
