//! Connectivity states reported by the network manager and the events
//! that a watcher derives from their changes.

use vstd::prelude::*;

verus! {

/// Connectivity state of the network manager, in ascending order of its
/// codes 0, 10, 20, 30, 40, 50, 60 and 70.
#[derive(Debug, Clone, Copy, PartialEq, Eq, Structural)]
pub enum NetworkState {
    Unknown,
    Asleep,
    Disconnected,
    Disconnecting,
    Connecting,
    ConnectedLocal,
    ConnectedSite,
    ConnectedGlobal,
}

/// The state that a code of the network manager stands for; `Unknown` for
/// a code that stands for none.
pub open spec fn state_of_code(code: u32) -> NetworkState {
    if code == 10 {
        NetworkState::Asleep
    } else if code == 20 {
        NetworkState::Disconnected
    } else if code == 30 {
        NetworkState::Disconnecting
    } else if code == 40 {
        NetworkState::Connecting
    } else if code == 50 {
        NetworkState::ConnectedLocal
    } else if code == 60 {
        NetworkState::ConnectedSite
    } else if code == 70 {
        NetworkState::ConnectedGlobal
    } else {
        NetworkState::Unknown
    }
}

impl From<u32> for NetworkState {
    fn from(value: u32) -> (state: Self) {
        match value {
            0 => NetworkState::Unknown,
            10 => NetworkState::Asleep,
            20 => NetworkState::Disconnected,
            30 => NetworkState::Disconnecting,
            40 => NetworkState::Connecting,
            50 => NetworkState::ConnectedLocal,
            60 => NetworkState::ConnectedSite,
            70 => NetworkState::ConnectedGlobal,
            _ => NetworkState::Unknown,
        }
    }
}

impl vstd::std_specs::convert::FromSpecImpl<u32> for NetworkState {
    open spec fn obeys_from_spec() -> bool {
        true
    }

    open spec fn from_spec(value: u32) -> Self {
        state_of_code(value)
    }
}

impl NetworkState {
    /// The code that the network manager gives this state.
    pub fn code(&self) -> (code: u32)
        ensures
            state_of_code(code) == *self,
            code % 10 == 0,
            code <= 70,
    {
        match self {
            NetworkState::Unknown => 0,
            NetworkState::Asleep => 10,
            NetworkState::Disconnected => 20,
            NetworkState::Disconnecting => 30,
            NetworkState::Connecting => 40,
            NetworkState::ConnectedLocal => 50,
            NetworkState::ConnectedSite => 60,
            NetworkState::ConnectedGlobal => 70,
        }
    }

    /// True exactly for full internet connectivity.
    pub fn is_connected(&self) -> (connected: bool)
        ensures
            connected == (*self == NetworkState::ConnectedGlobal),
    {
        matches!(self, NetworkState::ConnectedGlobal)
    }
}

/// What a watcher tells the coordinator.
#[derive(Debug, Clone, Copy, PartialEq, Eq, Structural)]
pub enum NetworkEvent {
    /// The network has internet access now, or its connections changed
    /// while it had.
    Connected,
    /// Internet access was lost.
    Disconnected,
}

/// A notification of the network manager.
#[derive(Debug, Clone, Copy, PartialEq, Eq, Structural)]
pub enum NetworkChange {
    /// The connectivity state changed to this code.
    State(u32),
    /// The number of active connections changed to this.
    ActiveConnections(usize),
}

/// What a watcher remembers between notifications.
#[derive(Debug, Clone, Copy, PartialEq, Eq, Structural)]
pub struct NetworkWatcher {
    /// Whether the last state seen was full connectivity.
    pub was_connected: bool,
    /// The last number of active connections seen.
    pub last_connections: usize,
}

/// True if `code` stands for full internet connectivity.
pub open spec fn code_connected(code: u32) -> bool {
    state_of_code(code) == NetworkState::ConnectedGlobal
}

impl NetworkWatcher {
    /// The watcher after a change of state to `code`.
    pub open spec fn after_state(self, code: u32) -> NetworkWatcher {
        NetworkWatcher {
            was_connected: code_connected(code),
            last_connections: self.last_connections,
        }
    }

    /// The event that a change of state to `code` raises: one on each edge
    /// of "fully connected", none otherwise.
    pub open spec fn state_event(self, code: u32) -> Option<NetworkEvent> {
        if code_connected(code) == self.was_connected {
            None
        } else if code_connected(code) {
            Some(NetworkEvent::Connected)
        } else {
            Some(NetworkEvent::Disconnected)
        }
    }

    /// The watcher after a change of the number of connections to `count`.
    pub open spec fn after_connections(self, count: usize) -> NetworkWatcher {
        NetworkWatcher { was_connected: self.was_connected, last_connections: count }
    }

    /// The event that a change of the number of connections to `count`
    /// raises: `Connected` if the number differs from the last one seen
    /// while connected, none otherwise.
    pub open spec fn connections_event(self, count: usize) -> Option<NetworkEvent> {
        if count != self.last_connections && self.was_connected {
            Some(NetworkEvent::Connected)
        } else {
            None
        }
    }

    /// The watcher after the notification `change`.
    pub open spec fn after(self, change: NetworkChange) -> NetworkWatcher {
        match change {
            NetworkChange::State(code) => self.after_state(code),
            NetworkChange::ActiveConnections(count) => self.after_connections(count),
        }
    }

    /// The event that the notification `change` raises.
    pub open spec fn event(self, change: NetworkChange) -> Option<NetworkEvent> {
        match change {
            NetworkChange::State(code) => self.state_event(code),
            NetworkChange::ActiveConnections(count) => self.connections_event(count),
        }
    }

    /// A watcher that starts from the state code and the number of active
    /// connections read at the start. A read that failed counts as code 0
    /// or as no connections.
    pub fn start(state: Option<u32>, connections: Option<usize>) -> (watcher: Self)
        ensures
            watcher.was_connected == match state {
                Some(code) => code_connected(code),
                None => false,
            },
            watcher.last_connections == match connections {
                Some(count) => count,
                None => 0,
            },
    {
        let code = match state {
            Some(code) => code,
            None => 0,
        };
        let count = match connections {
            Some(count) => count,
            None => 0,
        };
        NetworkWatcher {
            was_connected: NetworkState::from(code).is_connected(),
            last_connections: count,
        }
    }

    /// Takes in a change of the connectivity state and says which event it
    /// raises.
    pub fn on_state_changed(&mut self, code: u32) -> (event: Option<NetworkEvent>)
        ensures
            *final(self) == old(self).after_state(code),
            event == old(self).state_event(code),
    {
        let is_connected = NetworkState::from(code).is_connected();
        if is_connected != self.was_connected {
            self.was_connected = is_connected;
            if is_connected {
                Some(NetworkEvent::Connected)
            } else {
                Some(NetworkEvent::Disconnected)
            }
        } else {
            None
        }
    }

    /// Takes in a change of the number of active connections and says
    /// which event it raises. The number is remembered whether or not the
    /// network is connected.
    pub fn on_connections_changed(&mut self, count: usize) -> (event: Option<NetworkEvent>)
        ensures
            *final(self) == old(self).after_connections(count),
            event == old(self).connections_event(count),
    {
        let changed = count != self.last_connections && self.was_connected;
        self.last_connections = count;
        if changed {
            Some(NetworkEvent::Connected)
        } else {
            None
        }
    }

    /// Takes in one notification and says which event it raises.
    pub fn step(&mut self, change: NetworkChange) -> (event: Option<NetworkEvent>)
        ensures
            *final(self) == old(self).after(change),
            event == old(self).event(change),
    {
        match change {
            NetworkChange::State(code) => self.on_state_changed(code),
            NetworkChange::ActiveConnections(count) => self.on_connections_changed(count),
        }
    }
}

/// A notification that repeats the one before it raises no event: events
/// come from changes, not from levels.
pub proof fn lemma_repeated_change_is_silent(watcher: NetworkWatcher, change: NetworkChange)
    ensures
        watcher.after(change).event(change) is None,
        watcher.after(change).after(change) == watcher.after(change),
{
}

/// A change of state raises `Connected` exactly when the network becomes
/// fully connected, and `Disconnected` exactly when it stops being so.
pub proof fn lemma_state_events_mark_edges(watcher: NetworkWatcher, code: u32)
    ensures
        watcher.state_event(code) == Some(NetworkEvent::Connected) <==> !watcher.was_connected
            && code == 70,
        watcher.state_event(code) == Some(NetworkEvent::Disconnected) <==> watcher.was_connected
            && code != 70,
{
}

/// While the network is not connected, a change of the number of
/// connections raises no event, whatever the numbers.
pub proof fn lemma_connections_silent_when_disconnected(watcher: NetworkWatcher, count: usize)
    requires
        !watcher.was_connected,
    ensures
        watcher.connections_event(count) is None,
{
}

} // verus!
