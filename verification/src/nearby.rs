//! The connection engine: what a device advertises, whether it is running,
//! which outgoing Bluetooth LE connections it waits for, and how a request
//! that comes in is read.

use vstd::prelude::*;
use vstd::slice::slice_to_vec;
use crate::communication::initiate_receiver_communication;
use crate::connection_request::ConnectionRequest;
use crate::connection_request::ReceivePipeline;
use crate::connection_request::ReceiveStage;
use crate::discovery::announced;
use crate::encryption::random_bytes;
use crate::protocol::communication::opt_string_view;
use crate::protocol::communication::FileTransferIntent;
use crate::protocol::communication::FileTransferIntentView;
use crate::protocol::communication::Intent;
use crate::protocol::communication::IntentView;
use crate::protocol::communication::TransferRequest;
use crate::protocol::communication::TransferRequestView;
use crate::protocol::discovery::BluetoothLeConnectionInfo;
use crate::protocol::discovery::Content;
use crate::protocol::discovery::Device;
use crate::protocol::discovery::DeviceConnectionInfo;
use crate::protocol::discovery::DeviceConnectionInfoView;
use crate::protocol::discovery::DeviceDiscoveryMessage;
use crate::protocol::discovery::DeviceDiscoveryMessageView;
use crate::protocol::discovery::TcpConnectionInfo;
use crate::protocol::discovery::TcpConnectionInfoView;
use crate::errors::FramingError;
use crate::communication::responder_session;
use crate::protocol::framing::is_whole_frame;
use crate::send::frame_view;
use crate::protocol::varint::lemma_varint_nonempty;
use crate::stream::Close;
use crate::stream::Stream;

verus! {


/// The Bluetooth LE server of the platform: it advertises and accepts
/// incoming L2CAP channels.
pub trait BleServerImplementationDelegate {
    fn start_server(&self);

    fn stop_server(&self);
}

/// The Bluetooth LE client of the platform: asked to open an L2CAP channel,
/// it hands the channel in under the given connection id once it is open.
pub trait L2CapDelegate {
    fn open_l2cap_connection(&self, connection_id: String, peripheral_uuid: String, psm: u32);
}

/// The kinds of transfer that a request can announce.
#[derive(Clone, Copy, Debug, PartialEq, Eq, Structural)]
pub enum ConnectionIntentType {
    FileTransfer,
    Clipboard,
}

/// The transports over which a session can run.
#[derive(Clone, Copy, Debug, PartialEq, Eq, Structural)]
pub enum ConnectionMedium {
    BLE,
    WiFi,
}

/// The address on which the TCP listener was bound.
pub struct BoundListener {
    pub hostname: String,
    pub port: u16,
}

/// Mathematical content of a `BoundListener`.
pub ghost struct BoundListenerView {
    pub hostname: Seq<char>,
    pub port: u16,
}

impl View for BoundListener {
    type V = BoundListenerView;

    open spec fn view(&self) -> BoundListenerView {
        BoundListenerView { hostname: self.hostname@, port: self.port }
    }
}

/// The view of an optional listener address.
pub open spec fn bound_view(bound: Option<BoundListener>) -> Option<BoundListenerView> {
    match bound {
        Some(b) => Some(b@),
        None => None,
    }
}

/// The state of the engine that callers can observe.
pub ghost struct ServerView {
    /// What is advertised: the local device and its endpoints.
    pub info: DeviceConnectionInfoView,
    /// The port of the TCP listener, while there is one.
    pub tcp_port: Option<u16>,
    /// Whether the device advertises itself.
    pub advertise: bool,
    /// The ids of the outgoing Bluetooth LE connections that are awaited:
    /// the keys of the table of waiters.
    pub pending: Set<Seq<char>>,
}

/// The text of each id of a list.
pub open spec fn id_views(ids: Seq<String>) -> Seq<Seq<char>> {
    ids.map_values(|id: String| id@)
}

/// Appending an id that a list without repetitions does not hold adds it to
/// the set of its ids, and the list stays without repetitions.
pub proof fn lemma_pending_push(ids: Seq<Seq<char>>, id: Seq<char>)
    requires
        ids.no_duplicates(),
        !ids.contains(id),
    ensures
        ids.push(id).no_duplicates(),
        ids.push(id).to_set() == ids.to_set().insert(id),
{
    let after = ids.push(id);
    assert forall|a: Seq<char>| after.contains(a) <==> (ids.contains(a) || a == id) by {
        if after.contains(a) {
            let k = choose|k: int| 0 <= k < after.len() && after[k] == a;
            if k < ids.len() {
                assert(ids[k] == a);
            }
        }
        if ids.contains(a) {
            let k = choose|k: int| 0 <= k < ids.len() && ids[k] == a;
            assert(after[k] == a);
        }
        if a == id {
            assert(after[ids.len() as int] == a);
        }
    }
    assert(after.to_set() =~= ids.to_set().insert(id));
    assert forall|i: int, j: int| 0 <= i < after.len() && 0 <= j < after.len() && i != j implies after[i]
        != after[j] by {
        if i < ids.len() && j < ids.len() {
            assert(ids[i] != ids[j]);
        } else if i < ids.len() {
            assert(ids.contains(ids[i]));
        } else {
            assert(ids.contains(ids[j]));
        }
    }
}

/// Taking an id out of a list without repetitions takes it out of the set
/// of its ids, and the list stays without repetitions.
pub proof fn lemma_pending_remove(ids: Seq<Seq<char>>, i: int)
    requires
        ids.no_duplicates(),
        0 <= i < ids.len(),
    ensures
        ids.remove(i).no_duplicates(),
        ids.remove(i).to_set() == ids.to_set().remove(ids[i]),
{
    let after = ids.remove(i);
    assert forall|k: int| 0 <= k < after.len() implies #[trigger] after[k] == (if k < i {
        ids[k]
    } else {
        ids[k + 1]
    }) by {}
    assert forall|a: Seq<char>| after.contains(a) <==> (ids.contains(a) && a != ids[i]) by {
        if after.contains(a) {
            let k = choose|k: int| 0 <= k < after.len() && after[k] == a;
            let k0 = if k < i {
                k
            } else {
                k + 1
            };
            assert(ids[k0] == a);
            assert(ids[k0] != ids[i]);
        }
        if ids.contains(a) && a != ids[i] {
            let k = choose|k: int| 0 <= k < ids.len() && ids[k] == a;
            if k < i {
                assert(after[k] == a);
            } else {
                assert(after[k - 1] == a);
            }
        }
    }
    assert(after.to_set() =~= ids.to_set().remove(ids[i]));
    assert forall|a: int, b: int| 0 <= a < after.len() && 0 <= b < after.len() && a != b implies after[a]
        != after[b] by {
        let a0 = if a < i {
            a
        } else {
            a + 1
        };
        let b0 = if b < i {
            b
        } else {
            b + 1
        };
        assert(ids[a0] != ids[b0]);
    }
}

/// The frame that advertises a connection info.
pub open spec fn advertisement(info: DeviceConnectionInfoView) -> Seq<u8> {
    announced(info).encode_framed()
}

impl ServerView {
    /// Whether the engine is running: it has a listener and advertises.
    pub open spec fn running(self) -> bool {
        self.tcp_port is Some && self.advertise
    }

    /// The state after `start`. A listener that was just bound is taken up,
    /// with its address as the TCP endpoint, only where the engine has none;
    /// in any case the device advertises afterwards.
    pub open spec fn after_start(self, bound: Option<BoundListenerView>) -> ServerView {
        match (self.tcp_port, bound) {
            (None, Some(b)) => ServerView {
                info: DeviceConnectionInfoView {
                    tcp: Some(TcpConnectionInfoView { hostname: b.hostname, port: b.port as u32 }),
                    ..self.info
                },
                tcp_port: Some(b.port),
                advertise: true,
                ..self
            },
            _ => ServerView { advertise: true, ..self },
        }
    }

    /// The state after `stop`: no listener, no advertising.
    pub open spec fn after_stop(self) -> ServerView {
        ServerView { tcp_port: None, advertise: false, ..self }
    }

    /// What `get_advertisement_data` hands out: the framed announcement of
    /// the current connection info while the device advertises, nothing
    /// otherwise.
    pub open spec fn advertisement_data(self) -> Seq<u8> {
        if self.advertise {
            advertisement(self.info)
        } else {
            Seq::empty()
        }
    }
}

/// Starting an engine that has a listener changes nothing but the
/// advertising flag, so a second start right after a first that bound the
/// listener leaves the state as it is; so does a second start that binds
/// nothing.
pub proof fn lemma_start_is_idempotent(
    state: ServerView,
    first: Option<BoundListenerView>,
    second: Option<BoundListenerView>,
)
    requires
        state.after_start(first).tcp_port is Some || second is None,
    ensures
        state.after_start(first).after_start(second) == state.after_start(first),
{
}

/// An engine that takes up a listener at its start is running afterwards,
/// and an engine that was stopped is not.
pub proof fn lemma_start_runs_and_stop_idles(state: ServerView, bound: BoundListenerView)
    ensures
        state.after_start(Some(bound)).running(),
        !state.after_stop().running(),
        state.after_stop().advertisement_data().len() == 0,
{
}

/// Stopping twice is stopping once.
pub proof fn lemma_stop_is_idempotent(state: ServerView)
    ensures
        state.after_stop().after_stop() == state.after_stop(),
{
}

/// An engine that does not advertise hands out no advertisement, and one
/// that advertises hands out a frame that is not empty.
pub proof fn lemma_advertisement_is_there_while_advertising(state: ServerView)
    ensures
        state.advertisement_data().len() > 0 <==> state.advertise,
{
    lemma_varint_nonempty(announced(state.info).encode().len());
}

/// The advertisement of an engine that advertises decodes to the
/// announcement of its connection info.
pub proof fn lemma_advertisement_data(state: ServerView)
    requires
        state.advertise,
        state.info.encodable(),
        state.info.encode().len() <= u64::MAX,
        announced(state.info).encode().len() <= u64::MAX,
    ensures
        DeviceDiscoveryMessageView::decode_framed(state.advertisement_data()) == Ok::<
            DeviceDiscoveryMessageView,
            crate::errors::FramingError,
        >(announced(state.info)),
{
    announced(state.info).lemma_framed_roundtrip();
}

/// The connection engine of one device.
pub struct NearbyServer<S: BleServerImplementationDelegate, L: L2CapDelegate> {
    device_connection_info: DeviceConnectionInfo,
    tcp_port: Option<u16>,
    ble_server_implementation: Option<S>,
    ble_l2_cap_client: Option<L>,
    advertise: bool,
    file_storage: String,
    l2cap_connections: Vec<String>,
    discovery_message: Option<Vec<u8>>,
}

impl<S: BleServerImplementationDelegate, L: L2CapDelegate> View for NearbyServer<S, L> {
    type V = ServerView;

    closed spec fn view(&self) -> ServerView {
        ServerView {
            info: self.device_connection_info@,
            tcp_port: self.tcp_port,
            advertise: self.advertise,
            pending: id_views(self.l2cap_connections@).to_set(),
        }
    }
}

impl<S: BleServerImplementationDelegate, L: L2CapDelegate> NearbyServer<S, L> {
    /// The advertisement that is kept from an earlier call is the one of the
    /// current state, and no connection id is awaited twice.
    #[verifier::type_invariant]
    spec fn inv(&self) -> bool {
        &&& match self.discovery_message {
            Some(message) => self.advertise && message@ == advertisement(
                self.device_connection_info@,
            ),
            None => true,
        }
        &&& id_views(self.l2cap_connections@).no_duplicates()
    }

    /// The directory into which received files are written.
    pub closed spec fn storage(&self) -> Seq<char> {
        self.file_storage@
    }

    /// The Bluetooth LE server, where one was set.
    pub closed spec fn ble_server(&self) -> Option<S> {
        self.ble_server_implementation
    }

    /// The Bluetooth LE client, where one was set.
    pub closed spec fn l2cap_client(&self) -> Option<L> {
        self.ble_l2_cap_client
    }

    /// Whether a Bluetooth LE client was set.
    pub open spec fn has_l2cap_client(&self) -> bool {
        self.l2cap_client() is Some
    }

    /// An idle engine for `my_device`, which has no endpoints yet.
    pub fn new(my_device: Device, file_storage: String) -> (server: NearbyServer<S, L>)
        ensures
            server@.info == (DeviceConnectionInfoView { device: my_device@, tcp: None, ble: None }),
            server@.tcp_port is None,
            !server@.advertise,
            server@.pending == Set::<Seq<char>>::empty(),
            server.storage() == file_storage@,
            !server.has_l2cap_client(),
            server.ble_server() is None,
    {
        let server = NearbyServer {
            device_connection_info: DeviceConnectionInfo { device: my_device, tcp: None, ble: None },
            tcp_port: None,
            ble_server_implementation: None,
            ble_l2_cap_client: None,
            advertise: false,
            file_storage,
            l2cap_connections: Vec::new(),
            discovery_message: None,
        };
        proof {
            assert(server@.pending =~= Set::<Seq<char>>::empty());
        }
        server
    }

    /// Sets the Bluetooth LE client for outgoing connections.
    pub fn add_l2_cap_client(&mut self, delegate: L)
        ensures
            final(self)@ == old(self)@,
            final(self).storage() == old(self).storage(),
            final(self).l2cap_client() == Some(delegate),
            final(self).ble_server() == old(self).ble_server(),
    {
        proof {
            use_type_invariant(&*self);
        }
        self.ble_l2_cap_client = Some(delegate);
    }

    /// Sets the Bluetooth LE server.
    pub fn add_bluetooth_implementation(&mut self, implementation: S)
        ensures
            final(self)@ == old(self)@,
            final(self).storage() == old(self).storage(),
            final(self).l2cap_client() == old(self).l2cap_client(),
            final(self).ble_server() == Some(implementation),
    {
        proof {
            use_type_invariant(&*self);
        }
        self.ble_server_implementation = Some(implementation);
    }

    /// Replaces the advertised identity.
    pub fn change_device(&mut self, new_device: Device)
        ensures
            final(self)@ == (ServerView {
                info: DeviceConnectionInfoView { device: new_device@, ..old(self)@.info },
                ..old(self)@
            }),
            final(self).storage() == old(self).storage(),
            final(self).l2cap_client() == old(self).l2cap_client(),
            final(self).ble_server() == old(self).ble_server(),
    {
        proof {
            use_type_invariant(&*self);
        }
        self.discovery_message = None;
        self.device_connection_info.device = new_device;
    }

    /// Replaces the advertised Bluetooth LE endpoint.
    pub fn set_bluetooth_le_details(&mut self, ble_info: BluetoothLeConnectionInfo)
        ensures
            final(self)@ == (ServerView {
                info: DeviceConnectionInfoView { ble: Some(ble_info@), ..old(self)@.info },
                ..old(self)@
            }),
            final(self).storage() == old(self).storage(),
            final(self).l2cap_client() == old(self).l2cap_client(),
            final(self).ble_server() == old(self).ble_server(),
    {
        proof {
            use_type_invariant(&*self);
        }
        self.discovery_message = None;
        self.device_connection_info.ble = Some(ble_info);
    }

    /// Replaces the advertised TCP endpoint.
    pub fn set_tcp_details(&mut self, tcp_info: TcpConnectionInfo)
        ensures
            final(self)@ == (ServerView {
                info: DeviceConnectionInfoView { tcp: Some(tcp_info@), ..old(self)@.info },
                ..old(self)@
            }),
            final(self).storage() == old(self).storage(),
            final(self).l2cap_client() == old(self).l2cap_client(),
            final(self).ble_server() == old(self).ble_server(),
    {
        proof {
            use_type_invariant(&*self);
        }
        self.discovery_message = None;
        self.device_connection_info.tcp = Some(tcp_info);
    }

    /// Whether `start` would take up a listener: the engine has none.
    pub fn needs_tcp_server(&self) -> (needed: bool)
        ensures
            needed == (self@.tcp_port is None),
    {
        self.tcp_port.is_none()
    }

    /// The port of the TCP listener, while there is one.
    pub fn get_tcp_port(&self) -> (port: Option<u16>)
        ensures
            port == self@.tcp_port,
    {
        self.tcp_port
    }

    /// Whether the device advertises itself.
    pub fn is_advertising(&self) -> (advertising: bool)
        ensures
            advertising == self@.advertise,
    {
        self.advertise
    }

    /// A copy of what is advertised.
    pub fn get_connection_info(&self) -> (info: DeviceConnectionInfo)
        ensures
            info@ == self@.info,
    {
        self.device_connection_info.clone()
    }

    /// The directory into which received files are written.
    pub fn get_file_storage(&self) -> (directory: String)
        ensures
            directory@ == self.storage(),
    {
        self.file_storage.clone()
    }

    /// Starts the engine. `bound` is the address of a TCP listener that the
    /// caller has just opened, if it opened one; it is taken up where the
    /// engine has no listener. The device advertises afterwards. The
    /// Bluetooth LE server is started where the device did not advertise
    /// before, so that a second start has no further effect on it; what is
    /// handed out tells whether it was started.
    pub fn start(&mut self, bound: Option<BoundListener>) -> (started: bool)
        ensures
            final(self)@ == old(self)@.after_start(bound_view(bound)),
            final(self).storage() == old(self).storage(),
            final(self).l2cap_client() == old(self).l2cap_client(),
            final(self).ble_server() == old(self).ble_server(),
            started == (!old(self)@.advertise && old(self).ble_server() is Some),
    {
        proof {
            use_type_invariant(&*self);
        }
        if self.tcp_port.is_none() {
            match bound {
                Some(listener) => {
                    self.discovery_message = None;
                    self.tcp_port = Some(listener.port);
                    self.device_connection_info.tcp = Some(
                        TcpConnectionInfo { hostname: listener.hostname, port: listener.port as u32 },
                    );
                },
                None => {},
            }
        }
        let was_advertising = self.advertise;
        self.advertise = true;
        if was_advertising {
            return false;
        }
        match &self.ble_server_implementation {
            Some(server) => {
                server.start_server();
                true
            },
            None => false,
        }
    }

    /// Stops the engine: the listener is given up and the device advertises
    /// no longer. The Bluetooth LE server is stopped wherever one is set,
    /// on a second stop too; what is handed out tells whether it was
    /// stopped.
    pub fn stop(&mut self) -> (stopped: bool)
        ensures
            final(self)@ == old(self)@.after_stop(),
            final(self).storage() == old(self).storage(),
            final(self).l2cap_client() == old(self).l2cap_client(),
            final(self).ble_server() == old(self).ble_server(),
            stopped == (old(self).ble_server() is Some),
    {
        proof {
            use_type_invariant(&*self);
        }
        self.discovery_message = None;
        self.advertise = false;
        self.tcp_port = None;
        match &self.ble_server_implementation {
            Some(server) => {
                server.stop_server();
                true
            },
            None => false,
        }
    }

    /// Stops the engine and starts it again with the listener that the
    /// caller has just opened, if it opened one. What is handed out tells
    /// whether the Bluetooth LE server was stopped, and whether it was
    /// started.
    pub fn restart_server(&mut self, bound: Option<BoundListener>) -> (done: (bool, bool))
        ensures
            final(self)@ == old(self)@.after_stop().after_start(bound_view(bound)),
            final(self).storage() == old(self).storage(),
            final(self).l2cap_client() == old(self).l2cap_client(),
            final(self).ble_server() == old(self).ble_server(),
            done.0 == (old(self).ble_server() is Some),
            done.1 == (old(self).ble_server() is Some),
    {
        let stopped = self.stop();
        let started = self.start(bound);
        (stopped, started)
    }

    /// The framed announcement of the current connection info while the
    /// device advertises, nothing otherwise. The frame is built on the first
    /// call and kept until the state changes.
    pub fn get_advertisement_data(&mut self) -> (data: Vec<u8>)
        ensures
            final(self)@ == old(self)@,
            final(self).storage() == old(self).storage(),
            final(self).l2cap_client() == old(self).l2cap_client(),
            final(self).ble_server() == old(self).ble_server(),
            data@ == old(self)@.advertisement_data(),
            data@.len() > 0 <==> old(self)@.advertise,
    {
        proof {
            lemma_varint_nonempty(announced(self@.info).encode().len());
        }
        proof {
            use_type_invariant(&*self);
        }
        if self.discovery_message.is_none() && self.advertise {
            let message = DeviceDiscoveryMessage {
                content: Content::DeviceConnectionInfo(self.device_connection_info.clone()),
            };
            self.discovery_message = Some(message.encode_length_delimited_to_vec());
        }
        match &self.discovery_message {
            Some(message) => slice_to_vec(message.as_slice()),
            None => Vec::new(),
        }
    }

    /// Where `connection_id` stands among the awaited ids, if it is awaited.
    fn awaited_at(&self, connection_id: &String) -> (at: Option<usize>)
        ensures
            match at {
                Some(i) => i < self.l2cap_connections.len() && id_views(
                    self.l2cap_connections@,
                )[i as int] == connection_id@ && self@.pending.contains(connection_id@),
                None => !id_views(self.l2cap_connections@).contains(connection_id@)
                    && !self@.pending.contains(connection_id@),
            },
    {
        let ghost ids = id_views(self.l2cap_connections@);
        let mut i: usize = 0;
        while i < self.l2cap_connections.len()
            invariant
                i <= self.l2cap_connections.len(),
                ids == id_views(self.l2cap_connections@),
                forall|j: int| 0 <= j < i ==> ids[j] != connection_id@,
            decreases self.l2cap_connections.len() - i,
        {
            if self.l2cap_connections[i] == *connection_id {
                proof {
                    assert(ids[i as int] == connection_id@);
                    assert(ids.contains(connection_id@));
                }
                return Some(i);
            }
            i = i + 1;
        }
        None
    }

    /// Notes that an outgoing Bluetooth LE connection is awaited under
    /// `connection_id`. An id that is awaited already stays awaited once:
    /// its new waiter takes the place of the earlier one.
    pub fn register_l2cap_connection(&mut self, connection_id: String)
        ensures
            final(self)@ == (ServerView {
                pending: old(self)@.pending.insert(connection_id@),
                ..old(self)@
            }),
            final(self).storage() == old(self).storage(),
            final(self).l2cap_client() == old(self).l2cap_client(),
            final(self).ble_server() == old(self).ble_server(),
    {
        proof {
            use_type_invariant(&*self);
        }
        let ghost ids = id_views(self.l2cap_connections@);
        match self.awaited_at(&connection_id) {
            Some(_) => {
                proof {
                    assert(self@.pending.insert(connection_id@) =~= self@.pending);
                }
            },
            None => {
                proof {
                    lemma_pending_push(ids, connection_id@);
                    assert(id_views(self.l2cap_connections@.push(connection_id)) =~= ids.push(
                        connection_id@,
                    ));
                }
                let mut connections: Vec<String> = Vec::new();
                core::mem::swap(&mut connections, &mut self.l2cap_connections);
                connections.push(connection_id);
                self.l2cap_connections = connections;
            },
        }
    }

    /// Takes note that the Bluetooth LE connection of `connection_id` has
    /// come. True where it was awaited: then it is awaited no longer, and
    /// the caller hands the stream to whoever waits for it. Every other id
    /// stays as it is, and an id that is not awaited changes nothing.
    pub fn handle_incoming_ble_connection(&mut self, connection_id: &String) -> (awaited: bool)
        ensures
            final(self).storage() == old(self).storage(),
            final(self).l2cap_client() == old(self).l2cap_client(),
            final(self).ble_server() == old(self).ble_server(),
            awaited == old(self)@.pending.contains(connection_id@),
            !final(self)@.pending.contains(connection_id@),
            final(self)@ == (ServerView {
                pending: old(self)@.pending.remove(connection_id@),
                ..old(self)@
            }),
    {
        proof {
            use_type_invariant(&*self);
        }
        let ghost ids = id_views(self.l2cap_connections@);
        match self.awaited_at(connection_id) {
            Some(i) => {
                proof {
                    lemma_pending_remove(ids, i as int);
                    assert(id_views(self.l2cap_connections@.remove(i as int)) =~= ids.remove(
                        i as int,
                    ));
                }
                let mut connections: Vec<String> = Vec::new();
                core::mem::swap(&mut connections, &mut self.l2cap_connections);
                let _ = connections.remove(i);
                self.l2cap_connections = connections;
                true
            },
            None => {
                proof {
                    assert(self@.pending.remove(connection_id@) =~= self@.pending);
                }
                false
            },
        }
    }
}

impl<S: BleServerImplementationDelegate, L: L2CapDelegate> NearbyServer<S, L> {
    /// Whether a Bluetooth LE client was set.
    pub fn l2cap_client_available(&self) -> (available: bool)
        ensures
            available == self.has_l2cap_client(),
    {
        self.ble_l2_cap_client.is_some()
    }

    /// Registers an awaited connection under `connection_id` and asks the
    /// Bluetooth LE client to open the channel. False, with nothing
    /// registered, where no client was set.
    pub fn open_l2cap_connection(
        &mut self,
        connection_id: String,
        peripheral_uuid: String,
        psm: u32,
    ) -> (asked: bool)
        ensures
            asked == old(self).has_l2cap_client(),
            final(self).storage() == old(self).storage(),
            final(self).l2cap_client() == old(self).l2cap_client(),
            final(self).ble_server() == old(self).ble_server(),
            final(self)@ == (ServerView {
                pending: if asked {
                    old(self)@.pending.insert(connection_id@)
                } else {
                    old(self)@.pending
                },
                ..old(self)@
            }),
    {
        if self.ble_l2_cap_client.is_none() {
            return false;
        }
        let id = connection_id.clone();
        self.register_l2cap_connection(connection_id);
        match &self.ble_l2_cap_client {
            Some(client) => {
                client.open_l2cap_connection(id, peripheral_uuid, psm);
            },
            None => {},
        }
        true
    }

    /// The request that announces the transfer of one file from this
    /// device.
    pub fn file_transfer_request(&self, file_name: Option<String>, file_size: u64) -> (request:
        TransferRequest)
        ensures
            request@ == (TransferRequestView {
                device: self@.info.device,
                intent: IntentView::FileTransfer(
                    FileTransferIntentView {
                        file_name: opt_string_view(file_name),
                        file_size,
                        multiple: false,
                    },
                ),
            }),
    {
        TransferRequest {
            device: self.device_connection_info.device.clone(),
            intent: Intent::FileTransfer(FileTransferIntent { file_name, file_size, multiple: false }),
        }
    }
}

/// The beginning of a reception: the handshake as the responder, then the
/// transfer request. `None`, with the stream closed, where either fails:
/// the application hears only of requests that were read in full.
pub fn receive_request<T: Stream>(native_stream: T, file_storage: String) -> (request: Option<
    ConnectionRequest<T>,
>)
    ensures
        match request {
            Some(r) => r.storage() == file_storage@ && r.course() == (ReceivePipeline {
                stage: ReceiveStage::Pending,
                file_size: 0,
                received: 0,
                cancelled: false,
                failed: false,
            }) && carried_in(r.request(), r.connection().cipher.position())
                && responder_session(r.connection().cipher.key(), r.connection().cipher.iv()),
            None => true,
        },
{
    let mut encrypted_stream = match initiate_receiver_communication(native_stream) {
        Ok(stream) => stream,
        Err(_) => {
            return None;
        },
    };
    let frame = match encrypted_stream.receive_frame() {
        Ok(frame) => frame,
        Err(_) => {
            encrypted_stream.close();
            return None;
        },
    };
    let ghost came = frame_view(frame);
    match transfer_request_in(frame) {
        Some(transfer_request) => {
            proof {
                assert(request_in(Ok::<Seq<u8>, FramingError>(came->Ok_0)) == Some(
                    transfer_request@,
                ));
            }
            Some(ConnectionRequest::new(transfer_request, encrypted_stream, file_storage))
        },
        None => {
            encrypted_stream.close();
            None
        },
    }
}

/// The transfer request in what came after a handshake, for the frame that
/// was read or the reason why none was: none where no frame came or the
/// frame is not one of a transfer request.
pub open spec fn request_in(frame: Result<Seq<u8>, FramingError>) -> Option<TransferRequestView> {
    match frame {
        Err(_) => None,
        Ok(bytes) => match TransferRequestView::decode_framed(bytes) {
            Ok(request) => Some(request),
            Err(_) => None,
        },
    }
}

/// Whether a transfer request is the one that a whole frame of `length`
/// bytes carries: the request was read from a frame, and the keystream of
/// its session stands behind that frame.
pub open spec fn carried_in(request: TransferRequestView, length: nat) -> bool {
    exists|bytes: Seq<u8>|
        bytes.len() == length && is_whole_frame(bytes) && #[trigger] request_in(
            Ok::<Seq<u8>, FramingError>(bytes),
        ) == Some(request)
}

/// The transfer request in what came after a handshake.
pub fn transfer_request_in(frame: Result<Vec<u8>, FramingError>) -> (request: Option<
    TransferRequest,
>)
    ensures
        match request {
            Some(r) => request_in(frame_view(frame)) == Some(r@),
            None => request_in(frame_view(frame)) is None,
        },
{
    match frame {
        Err(_) => None,
        Ok(bytes) => match TransferRequest::decode_length_delimited(bytes.as_slice()) {
            Ok(request) => Some(request),
            Err(_) => None,
        },
    }
}

impl<S: BleServerImplementationDelegate, L: L2CapDelegate> NearbyServer<S, L> {
    /// Takes a raw stream that a peer opened, over TCP or Bluetooth LE, and
    /// reads the request that comes over it, to be handed to the
    /// application. `None` where the peer sent none that can be read.
    pub fn handle_incoming_connection<T: Stream>(&self, native_stream: T) -> (request: Option<
        ConnectionRequest<T>,
    >)
        ensures
            match request {
                Some(r) => r.storage() == self.storage() && r.course() == (ReceivePipeline {
                    stage: ReceiveStage::Pending,
                    file_size: 0,
                    received: 0,
                    cancelled: false,
                    failed: false,
                }) && carried_in(r.request(), r.connection().cipher.position())
                && responder_session(r.connection().cipher.key(), r.connection().cipher.iv()),
                None => true,
            },
    {
        receive_request(native_stream, self.file_storage.clone())
    }
}

/// The text of the version 4 UUID that is made of 16 random bytes.
pub uninterp spec fn uuid_v4_text(random: Seq<u8>) -> Seq<char>;

/// `Builder::from_random_bytes`, `into_uuid` and `to_string` of the crate
/// uuid: the version 4 UUID made of `random`, written in its hyphenated form
/// of 36 characters.
#[verifier::external_body]
fn uuid_from_random(random: &[u8; 16]) -> (id: String)
    ensures
        id@ == uuid_v4_text(random@),
        id@.len() == 36,
{
    uuid::Builder::from_random_bytes(*random).into_uuid().to_string()
}

/// A fresh connection id: a random version 4 UUID. `None` where the
/// operating system has no randomness to give.
pub fn fresh_connection_id() -> (id: Option<String>)
    ensures
        id is Some ==> id.unwrap()@.len() == 36,
        id is Some ==> exists|random: Seq<u8>|
            random.len() == 16 && id.unwrap()@ == #[trigger] uuid_v4_text(random),
{
    let random = random_bytes::<16>();
    connection_id_of(random)
}

/// The view of 16 bytes that the random source gave, if it gave them.
pub open spec fn random_view(random: Option<[u8; 16]>) -> Option<Seq<u8>> {
    match random {
        Some(bytes) => Some(bytes@),
        None => None,
    }
}

/// The connection id made of what the random source gave: the text of the
/// version 4 UUID of the 16 bytes, and none where it gave none.
pub fn connection_id_of(random: Option<[u8; 16]>) -> (id: Option<String>)
    ensures
        match id {
            Some(text) => random_view(random) is Some && text@ == uuid_v4_text(
                random_view(random).unwrap(),
            ) && text@.len() == 36,
            None => random is None,
        },
{
    match random {
        Some(bytes) => Some(uuid_from_random(&bytes)),
        None => None,
    }
}

/// The request that was framed is the request that is read: what a sender
/// announces is what the receiver's application is handed.
pub proof fn lemma_request_in_its_frame(request: TransferRequestView)
    requires
        request.encodable(),
        request.encode().len() <= u64::MAX,
    ensures
        request_in(Ok::<Seq<u8>, FramingError>(request.encode_framed())) == Some(request),
{
    request.lemma_framed_roundtrip();
}

/// Where no frame came, there is no request to hand to the application.
pub proof fn lemma_no_request_without_a_frame(reason: FramingError)
    ensures
        request_in(Err::<Seq<u8>, FramingError>(reason)) is None,
{
}

} // verus!
