//! The registry of discovered peers and the rules by which discovery
//! messages change it.

use vstd::prelude::*;
use crate::errors::DiscoverySetupError;
use crate::protocol::discovery::BluetoothLeConnectionInfo;
use crate::protocol::discovery::BluetoothLeConnectionInfoView;
use crate::protocol::discovery::Content;
use crate::protocol::discovery::ContentView;
use crate::protocol::discovery::Device;
use crate::protocol::discovery::DeviceConnectionInfo;
use crate::protocol::discovery::DeviceConnectionInfoView;
use crate::protocol::discovery::DeviceDiscoveryMessage;
use crate::protocol::discovery::DeviceDiscoveryMessageView;
use crate::protocol::discovery::DeviceView;
use crate::protocol::DiscoveryDelegate;

verus! {

/// The scanner that feeds discovery: the library starts and stops it, and it
/// hands every payload it observes to `Discovery::parse_discovery_message`.
pub trait BleDiscoveryImplementationDelegate {
    fn start_scanning(&self);

    fn stop_scanning(&self);
}

/// The content of each entry of a list of connection infos.
pub open spec fn entry_views(entries: Seq<DeviceConnectionInfo>) -> Seq<DeviceConnectionInfoView> {
    entries.map_values(|entry: DeviceConnectionInfo| entry@)
}

/// Whether no device id occurs twice in a list of connection infos.
pub open spec fn unique_ids(entries: Seq<DeviceConnectionInfoView>) -> bool {
    forall|i: int, j: int|
        0 <= i < entries.len() && 0 <= j < entries.len() && i != j ==> (
        #[trigger] entries[i]).device.id != (#[trigger] entries[j]).device.id
}

/// Whether an entry of the list is of the device `id`.
pub open spec fn lists(entries: Seq<DeviceConnectionInfoView>, id: Seq<char>) -> bool {
    exists|i: int| 0 <= i < entries.len() && (#[trigger] entries[i]).device.id == id
}

/// The place of an entry of the device `id`.
pub open spec fn place_of(entries: Seq<DeviceConnectionInfoView>, id: Seq<char>) -> int {
    choose|i: int| 0 <= i < entries.len() && (#[trigger] entries[i]).device.id == id
}

/// The map from device ids to connection infos that a list stands for.
pub open spec fn table(entries: Seq<DeviceConnectionInfoView>) -> Map<
    Seq<char>,
    DeviceConnectionInfoView,
> {
    Map::new(|id: Seq<char>| lists(entries, id), |id: Seq<char>| entries[place_of(entries, id)])
}

/// In a list without repeated ids, the table holds each entry under its id.
pub proof fn lemma_table_at(entries: Seq<DeviceConnectionInfoView>, i: int)
    requires
        unique_ids(entries),
        0 <= i < entries.len(),
    ensures
        table(entries).dom().contains(entries[i].device.id),
        table(entries)[entries[i].device.id] == entries[i],
{
    let id = entries[i].device.id;
    assert(lists(entries, id));
    let j = place_of(entries, id);
    assert(0 <= j < entries.len() && entries[j].device.id == id);
}

/// Appending an entry with a new id stores it in the table.
pub proof fn lemma_table_push(entries: Seq<DeviceConnectionInfoView>, entry: DeviceConnectionInfoView)
    requires
        unique_ids(entries),
        !lists(entries, entry.device.id),
    ensures
        unique_ids(entries.push(entry)),
        table(entries.push(entry)) == table(entries).insert(entry.device.id, entry),
{
    let after = entries.push(entry);
    assert forall|i: int, j: int|
        0 <= i < after.len() && 0 <= j < after.len() && i != j implies (#[trigger] after[i]).device.id
        != (#[trigger] after[j]).device.id by {
        if i < entries.len() {
            assert(entries[i].device.id == after[i].device.id);
        }
        if j < entries.len() {
            assert(entries[j].device.id == after[j].device.id);
        }
    }
    assert forall|id: Seq<char>| lists(after, id) <==> (id == entry.device.id || lists(
        entries,
        id,
    )) by {
        if lists(after, id) {
            let k = place_of(after, id);
            if k < entries.len() {
                assert(entries[k].device.id == id);
            }
        }
        if lists(entries, id) {
            let k = place_of(entries, id);
            assert(after[k].device.id == id);
        }
        if id == entry.device.id {
            assert(after[entries.len() as int].device.id == id);
        }
    }
    assert forall|id: Seq<char>| lists(after, id) implies #[trigger] table(after)[id] == table(
        entries,
    ).insert(entry.device.id, entry)[id] by {
        let k = place_of(after, id);
        lemma_table_at(after, k);
        if k < entries.len() {
            assert(entries[k] == after[k]);
            lemma_table_at(entries, k);
        }
    }
    assert(table(after) =~= table(entries).insert(entry.device.id, entry));
}

/// Replacing an entry by one of the same id stores the new one in the
/// table.
pub proof fn lemma_table_update(
    entries: Seq<DeviceConnectionInfoView>,
    i: int,
    entry: DeviceConnectionInfoView,
)
    requires
        unique_ids(entries),
        0 <= i < entries.len(),
        entries[i].device.id == entry.device.id,
    ensures
        unique_ids(entries.update(i, entry)),
        table(entries.update(i, entry)) == table(entries).insert(entry.device.id, entry),
{
    let after = entries.update(i, entry);
    assert forall|k: int| 0 <= k < after.len() implies (#[trigger] after[k]).device.id
        == entries[k].device.id by {}
    assert forall|a: int, b: int|
        0 <= a < after.len() && 0 <= b < after.len() && a != b implies (#[trigger] after[a]).device.id
        != (#[trigger] after[b]).device.id by {
        assert(entries[a].device.id != entries[b].device.id);
    }
    assert forall|id: Seq<char>| lists(after, id) <==> lists(entries, id) by {
        if lists(after, id) {
            let k = place_of(after, id);
            assert(entries[k].device.id == id);
        }
        if lists(entries, id) {
            let k = place_of(entries, id);
            assert(after[k].device.id == id);
        }
    }
    assert(lists(entries, entry.device.id)) by {
        assert(entries[i].device.id == entry.device.id);
    }
    assert forall|id: Seq<char>| lists(after, id) implies #[trigger] table(after)[id] == table(
        entries,
    ).insert(entry.device.id, entry)[id] by {
        let k = place_of(after, id);
        lemma_table_at(after, k);
        if k != i {
            assert(entries[k] == after[k]);
            lemma_table_at(entries, k);
            assert(entries[k].device.id != entries[i].device.id);
        }
    }
    assert(table(after) =~= table(entries).insert(entry.device.id, entry));
}

/// Taking an entry out takes its id out of the table.
pub proof fn lemma_table_remove(entries: Seq<DeviceConnectionInfoView>, i: int)
    requires
        unique_ids(entries),
        0 <= i < entries.len(),
    ensures
        unique_ids(entries.remove(i)),
        table(entries.remove(i)) == table(entries).remove(entries[i].device.id),
{
    let after = entries.remove(i);
    let gone = entries[i].device.id;
    assert forall|k: int| 0 <= k < after.len() implies #[trigger] after[k] == (if k < i {
        entries[k]
    } else {
        entries[k + 1]
    }) by {}
    assert forall|a: int, b: int|
        0 <= a < after.len() && 0 <= b < after.len() && a != b implies (#[trigger] after[a]).device.id
        != (#[trigger] after[b]).device.id by {
        let a0 = if a < i {
            a
        } else {
            a + 1
        };
        let b0 = if b < i {
            b
        } else {
            b + 1
        };
        assert(entries[a0].device.id != entries[b0].device.id);
    }
    assert forall|id: Seq<char>| lists(after, id) <==> (id != gone && lists(entries, id)) by {
        if lists(after, id) {
            let k = place_of(after, id);
            let k0 = if k < i {
                k
            } else {
                k + 1
            };
            assert(entries[k0].device.id == id);
            assert(entries[k0].device.id != entries[i].device.id);
        }
        if id != gone && lists(entries, id) {
            let k = place_of(entries, id);
            if k < i {
                assert(after[k].device.id == id);
            } else {
                assert(after[k - 1].device.id == id);
            }
        }
    }
    assert forall|id: Seq<char>| lists(after, id) implies #[trigger] table(after)[id] == table(
        entries,
    ).remove(gone)[id] by {
        let k = place_of(after, id);
        lemma_table_at(after, k);
        let k0 = if k < i {
            k
        } else {
            k + 1
        };
        lemma_table_at(entries, k0);
    }
    assert(table(after) =~= table(entries).remove(gone));
}

/// The known peers: for each device id the connection info seen last.
pub struct DeviceRegistry {
    entries: Vec<DeviceConnectionInfo>,
}

impl View for DeviceRegistry {
    type V = Map<Seq<char>, DeviceConnectionInfoView>;

    closed spec fn view(&self) -> Map<Seq<char>, DeviceConnectionInfoView> {
        table(entry_views(self.entries@))
    }
}

impl DeviceRegistry {
    /// No id occurs twice.
    #[verifier::type_invariant]
    spec fn inv(&self) -> bool {
        unique_ids(entry_views(self.entries@))
    }

    /// A registry without peers.
    pub fn new() -> (registry: DeviceRegistry)
        ensures
            registry@ == Map::<Seq<char>, DeviceConnectionInfoView>::empty(),
    {
        let registry = DeviceRegistry { entries: Vec::new() };
        proof {
            assert(registry@ =~= Map::<Seq<char>, DeviceConnectionInfoView>::empty());
        }
        registry
    }

    /// Forgets every peer.
    pub fn clear(&mut self)
        ensures
            final(self)@ == Map::<Seq<char>, DeviceConnectionInfoView>::empty(),
    {
        self.entries = Vec::new();
        proof {
            assert(self@ =~= Map::<Seq<char>, DeviceConnectionInfoView>::empty());
        }
    }

    /// Where the entry of `id` stands, if there is one.
    fn position(&self, id: &String) -> (at: Option<usize>)
        ensures
            match at {
                Some(i) => i < self.entries.len() && self.entries[i as int]@.device.id == id@
                    && self@.dom().contains(id@) && self@[id@] == self.entries[i as int]@,
                None => !self@.dom().contains(id@) && !lists(entry_views(self.entries@), id@),
            },
    {
        proof {
            use_type_invariant(self);
        }
        let ghost views = entry_views(self.entries@);
        let mut i: usize = 0;
        while i < self.entries.len()
            invariant
                i <= self.entries.len(),
                views == entry_views(self.entries@),
                unique_ids(views),
                forall|j: int| 0 <= j < i ==> (#[trigger] views[j]).device.id != id@,
            decreases self.entries.len() - i,
        {
            if self.entries[i].device.id == *id {
                proof {
                    assert(views[i as int] == self.entries[i as int]@);
                    lemma_table_at(views, i as int);
                }
                return Some(i);
            }
            proof {
                assert(views[i as int] == self.entries[i as int]@);
            }
            i = i + 1;
        }
        None
    }

    /// The connection info known for `id`, as a copy.
    pub fn get(&self, id: &String) -> (info: Option<DeviceConnectionInfo>)
        ensures
            match info {
                Some(found) => self@.dom().contains(id@) && self@[id@] == found@,
                None => !self@.dom().contains(id@),
            },
    {
        match self.position(id) {
            Some(i) => Some(self.entries[i].clone()),
            None => None,
        }
    }

    /// Stores `info` under the id of its device. True where the id was not
    /// known or was known with another info.
    pub fn insert(&mut self, info: DeviceConnectionInfo) -> (changed: bool)
        ensures
            final(self)@ == old(self)@.insert(info@.device.id, info@),
            changed == (!old(self)@.dom().contains(info@.device.id) || old(self)@[info@.device.id]
                != info@),
    {
        proof {
            use_type_invariant(&*self);
        }
        let ghost views = entry_views(self.entries@);
        match self.position(&info.device.id) {
            Some(i) => {
                let changed = !self.entries[i].equals(&info);
                proof {
                    assert(views[i as int] == self.entries[i as int]@);
                    lemma_table_update(views, i as int, info@);
                    assert(entry_views(self.entries@.update(i as int, info)) =~= views.update(
                        i as int,
                        info@,
                    ));
                }
                let mut entries: Vec<DeviceConnectionInfo> = Vec::new();
                core::mem::swap(&mut entries, &mut self.entries);
                entries.set(i, info);
                self.entries = entries;
                changed
            },
            None => {
                proof {
                    lemma_table_push(views, info@);
                    assert(entry_views(self.entries@.push(info)) =~= views.push(info@));
                }
                let mut entries: Vec<DeviceConnectionInfo> = Vec::new();
                core::mem::swap(&mut entries, &mut self.entries);
                entries.push(info);
                self.entries = entries;
                true
            },
        }
    }

    /// Forgets the peer of `id`. True where it was known.
    pub fn remove(&mut self, id: &String) -> (was_known: bool)
        ensures
            final(self)@ == old(self)@.remove(id@),
            was_known == old(self)@.dom().contains(id@),
    {
        proof {
            use_type_invariant(&*self);
        }
        let ghost views = entry_views(self.entries@);
        match self.position(id) {
            Some(i) => {
                proof {
                    assert(views[i as int] == self.entries[i as int]@);
                    lemma_table_remove(views, i as int);
                    assert(entry_views(self.entries@.remove(i as int)) =~= views.remove(i as int));
                }
                let mut entries: Vec<DeviceConnectionInfo> = Vec::new();
                core::mem::swap(&mut entries, &mut self.entries);
                let _ = entries.remove(i);
                self.entries = entries;
                true
            },
            None => {
                proof {
                    assert(self@.remove(id@) =~= self@);
                }
                false
            },
        }
    }

    /// The devices of the known peers: one for each id of the registry, in
    /// the order in which the ids first appeared.
    pub fn get_devices(&self) -> (devices: Vec<Device>)
        ensures
            forall|i: int|
                0 <= i < devices@.len() ==> self@.dom().contains((#[trigger] devices@[i])@.id)
                    && self@[devices@[i]@.id].device == devices@[i]@,
            forall|id: Seq<char>| #[trigger]
                self@.dom().contains(id) ==> exists|i: int|
                    0 <= i < devices@.len() && (#[trigger] devices@[i])@ == self@[id].device,
            forall|i: int, j: int|
                0 <= i < devices@.len() && 0 <= j < devices@.len() && i != j ==> (
                #[trigger] devices@[i])@.id != (#[trigger] devices@[j])@.id,
    {
        proof {
            use_type_invariant(self);
        }
        let ghost views = entry_views(self.entries@);
        let mut devices: Vec<Device> = Vec::new();
        let mut i: usize = 0;
        while i < self.entries.len()
            invariant
                i <= self.entries.len(),
                devices@.len() == i,
                views == entry_views(self.entries@),
                forall|j: int| 0 <= j < i ==> (#[trigger] devices@[j])@ == views[j].device,
            decreases self.entries.len() - i,
        {
            proof {
                assert(views[i as int] == self.entries[i as int]@);
            }
            devices.push(self.entries[i].device.clone());
            i = i + 1;
        }
        proof {
            assert forall|k: int| 0 <= k < devices@.len() implies self@.dom().contains(
                (#[trigger] devices@[k])@.id,
            ) && self@[devices@[k]@.id].device == devices@[k]@ by {
                lemma_table_at(views, k);
            }
            assert forall|id: Seq<char>| #[trigger] self@.dom().contains(id) implies exists|k: int|
                0 <= k < devices@.len() && (#[trigger] devices@[k])@ == self@[id].device by {
                let k = place_of(views, id);
                lemma_table_at(views, k);
                assert(devices@[k]@ == self@[id].device);
            }
            assert forall|a: int, b: int|
                0 <= a < devices@.len() && 0 <= b < devices@.len() && a != b implies (
            #[trigger] devices@[a])@.id != (#[trigger] devices@[b])@.id by {
                assert(views[a].device.id != views[b].device.id);
            }
        }
        devices
    }
}

/// What a discovery message did to the set of known peers: what the
/// subscriber is told.
#[derive(Debug, PartialEq, Eq)]
pub enum DiscoveryEvent {
    /// Nothing that the subscriber has to hear of.
    Unchanged,
    /// `device_added`: a peer is new, or is known with other endpoints.
    DeviceAdded(Device),
    /// `device_removed`: a known peer went offline.
    DeviceRemoved(String),
}

/// Mathematical content of a `DiscoveryEvent`.
pub ghost enum DiscoveryEventView {
    Unchanged,
    DeviceAdded(DeviceView),
    DeviceRemoved(Seq<char>),
}

impl View for DiscoveryEvent {
    type V = DiscoveryEventView;

    open spec fn view(&self) -> DiscoveryEventView {
        match self {
            DiscoveryEvent::Unchanged => DiscoveryEventView::Unchanged,
            DiscoveryEvent::DeviceAdded(device) => DiscoveryEventView::DeviceAdded(device@),
            DiscoveryEvent::DeviceRemoved(id) => DiscoveryEventView::DeviceRemoved(id@),
        }
    }
}

/// The view of an optional text.
pub open spec fn hint_view(hint: Option<String>) -> Option<Seq<char>> {
    match hint {
        Some(text) => Some(text@),
        None => None,
    }
}

/// A connection info with the scanner's hint laid over it: where the info
/// has a Bluetooth LE endpoint and the scanner knows the peer's uuid, the
/// scanner's uuid stands.
pub open spec fn with_hint(info: DeviceConnectionInfoView, hint: Option<Seq<char>>) -> DeviceConnectionInfoView {
    match (info.ble, hint) {
        (Some(ble), Some(uuid)) => DeviceConnectionInfoView {
            ble: Some(BluetoothLeConnectionInfoView { uuid, psm: ble.psm }),
            ..info
        },
        _ => info,
    }
}

/// What a decoded discovery message does to the known peers and what the
/// subscriber is told. A connection info is stored under its device's id,
/// and the subscriber hears of it unless the very same info was stored
/// before. An offline notice removes the id, and the subscriber hears of it
/// if the id was known.
pub open spec fn apply_message(
    known: Map<Seq<char>, DeviceConnectionInfoView>,
    message: DeviceDiscoveryMessageView,
    hint: Option<Seq<char>>,
) -> (Map<Seq<char>, DeviceConnectionInfoView>, DiscoveryEventView) {
    match message.content {
        ContentView::DeviceConnectionInfo(received) => {
            let info = with_hint(received, hint);
            let id = info.device.id;
            (
                known.insert(id, info),
                if known.dom().contains(id) && known[id] == info {
                    DiscoveryEventView::Unchanged
                } else {
                    DiscoveryEventView::DeviceAdded(info.device)
                },
            )
        },
        ContentView::OfflineDeviceId(id) => (
            known.remove(id),
            if known.dom().contains(id) {
                DiscoveryEventView::DeviceRemoved(id)
            } else {
                DiscoveryEventView::Unchanged
            },
        ),
    }
}

/// What a payload from the scanner does: a payload that is no framed
/// discovery message changes nothing.
pub open spec fn discovery_step(
    known: Map<Seq<char>, DeviceConnectionInfoView>,
    data: Seq<u8>,
    hint: Option<Seq<char>>,
) -> (Map<Seq<char>, DeviceConnectionInfoView>, DiscoveryEventView) {
    match DeviceDiscoveryMessageView::decode_framed(data) {
        Ok(message) => apply_message(known, message, hint),
        Err(_) => (known, DiscoveryEventView::Unchanged),
    }
}

/// The known peers after a payload.
pub open spec fn peers_after(
    known: Map<Seq<char>, DeviceConnectionInfoView>,
    data: Seq<u8>,
    hint: Option<Seq<char>>,
) -> Map<Seq<char>, DeviceConnectionInfoView> {
    let (after, event) = discovery_step(known, data, hint);
    after
}

/// What the subscriber is told after a payload.
pub open spec fn event_after(
    known: Map<Seq<char>, DeviceConnectionInfoView>,
    data: Seq<u8>,
    hint: Option<Seq<char>>,
) -> DiscoveryEventView {
    let (after, event) = discovery_step(known, data, hint);
    event
}

/// A connection info whose id is new, or that differs from the stored one,
/// is announced once as added and can then be looked up; a connection info
/// that is already stored is not announced. What is stored and compared is
/// the info with the scanner's hint laid over it.
pub proof fn lemma_connection_info_is_stored(
    known: Map<Seq<char>, DeviceConnectionInfoView>,
    received: DeviceConnectionInfoView,
    hint: Option<Seq<char>>,
)
    ensures
        ({
            let info = with_hint(received, hint);
            let (after, event) = apply_message(known, announced(received), hint);
            &&& info.device == received.device
            &&& after.dom().contains(info.device.id)
            &&& after[info.device.id] == info
            &&& (!known.dom().contains(info.device.id) || known[info.device.id] != info) ==> event
                == DiscoveryEventView::DeviceAdded(info.device)
            &&& (known.dom().contains(info.device.id) && known[info.device.id] == info) ==> event
                == DiscoveryEventView::Unchanged
        }),
{
}

/// The message that announces a connection info.
pub open spec fn announced(info: DeviceConnectionInfoView) -> DeviceDiscoveryMessageView {
    DeviceDiscoveryMessageView { content: ContentView::DeviceConnectionInfo(info) }
}

/// An offline notice is announced as removed exactly where the id was
/// known, and the id cannot be looked up afterwards.
pub proof fn lemma_offline_is_removed(
    known: Map<Seq<char>, DeviceConnectionInfoView>,
    id: Seq<char>,
    hint: Option<Seq<char>>,
)
    ensures
        ({
            let message = DeviceDiscoveryMessageView { content: ContentView::OfflineDeviceId(id) };
            let (after, event) = apply_message(known, message, hint);
            &&& !after.dom().contains(id)
            &&& event == DiscoveryEventView::DeviceRemoved(id) <==> known.dom().contains(id)
            &&& event == DiscoveryEventView::Unchanged <==> !known.dom().contains(id)
        }),
{
}

/// A payload that arrives twice in a row is announced at most once: the
/// second time the subscriber is told nothing and the known peers stay as
/// they are.
pub proof fn lemma_repeated_payload_is_silent(
    known: Map<Seq<char>, DeviceConnectionInfoView>,
    data: Seq<u8>,
    hint: Option<Seq<char>>,
)
    ensures
        event_after(peers_after(known, data, hint), data, hint) == DiscoveryEventView::Unchanged,
        peers_after(peers_after(known, data, hint), data, hint) == peers_after(known, data, hint),
{
    let once = peers_after(known, data, hint);
    match DeviceDiscoveryMessageView::decode_framed(data) {
        Ok(message) => {
            match message.content {
                ContentView::DeviceConnectionInfo(received) => {
                    let info = with_hint(received, hint);
                    assert(once.insert(info.device.id, info) =~= once);
                },
                ContentView::OfflineDeviceId(id) => {
                    assert(once.remove(id) =~= once);
                },
            }
        },
        Err(_) => {},
    }
}

/// Discovery: the registry of known peers, the scanner that feeds it and
/// the subscriber that hears of its changes.
pub struct Discovery<B: BleDiscoveryImplementationDelegate, D: DiscoveryDelegate> {
    ble_discovery_implementation: Option<B>,
    discovery_delegate: Option<D>,
    discovered_devices: DeviceRegistry,
}

impl<B: BleDiscoveryImplementationDelegate, D: DiscoveryDelegate> Discovery<B, D> {
    /// The scanner, where one was set.
    pub closed spec fn scanner(&self) -> Option<B> {
        self.ble_discovery_implementation
    }

    /// The subscriber that hears of changes, where one was given.
    pub closed spec fn subscriber(&self) -> Option<D> {
        self.discovery_delegate
    }

    /// The known peers: for each device id the connection info seen last.
    pub closed spec fn known(&self) -> Map<Seq<char>, DeviceConnectionInfoView> {
        self.discovered_devices@
    }

    /// Discovery without a scanner and without known peers.
    pub fn new(delegate: Option<D>) -> (discovery: Result<Discovery<B, D>, DiscoverySetupError>)
        ensures
            discovery is Ok,
            discovery->Ok_0.known() == Map::<Seq<char>, DeviceConnectionInfoView>::empty(),
            discovery->Ok_0.scanner() is None,
            discovery->Ok_0.subscriber() == delegate,
    {
        Ok(
            Discovery {
                ble_discovery_implementation: None,
                discovery_delegate: delegate,
                discovered_devices: DeviceRegistry::new(),
            },
        )
    }

    /// The devices of the known peers: one for each known id.
    pub fn get_devices(&self) -> (devices: Vec<Device>)
        ensures
            forall|i: int|
                0 <= i < devices@.len() ==> self.known().dom().contains(
                    (#[trigger] devices@[i])@.id,
                ) && self.known()[devices@[i]@.id].device == devices@[i]@,
            forall|id: Seq<char>| #[trigger]
                self.known().dom().contains(id) ==> exists|i: int|
                    0 <= i < devices@.len() && (#[trigger] devices@[i])@ == self.known()[id].device,
            forall|i: int, j: int|
                0 <= i < devices@.len() && 0 <= j < devices@.len() && i != j ==> (
                #[trigger] devices@[i])@.id != (#[trigger] devices@[j])@.id,
    {
        self.discovered_devices.get_devices()
    }

    /// A copy of the connection info that is known for the id of `device`.
    pub fn get_connection_details(&self, device: Device) -> (info: Option<DeviceConnectionInfo>)
        ensures
            match info {
                Some(found) => self.known().dom().contains(device@.id) && self.known()[device@.id]
                    == found@,
                None => !self.known().dom().contains(device@.id),
            },
    {
        self.discovered_devices.get(&device.id)
    }

    /// Sets the scanner.
    pub fn add_ble_implementation(&mut self, implementation: B)
        ensures
            final(self).scanner() == Some(implementation),
            final(self).subscriber() == old(self).subscriber(),
            final(self).known() == old(self).known(),
    {
        self.ble_discovery_implementation = Some(implementation);
    }

    /// Forgets every known peer and starts the scanner.
    pub fn start(&mut self)
        ensures
            final(self).known() == Map::<Seq<char>, DeviceConnectionInfoView>::empty(),
            final(self).scanner() == old(self).scanner(),
            final(self).subscriber() == old(self).subscriber(),
    {
        self.discovered_devices.clear();
        match &self.ble_discovery_implementation {
            Some(scanner) => {
                scanner.start_scanning();
            },
            None => {},
        }
    }

    /// Stops the scanner.
    pub fn stop(&self) {
        match &self.ble_discovery_implementation {
            Some(scanner) => {
                scanner.stop_scanning();
            },
            None => {},
        }
    }

    /// Takes a payload that the scanner observed, with the peer's Bluetooth
    /// LE uuid where the scanner knows it. The known peers change as
    /// `discovery_step` says; the subscriber is told what is returned.
    pub fn parse_discovery_message(&mut self, data: Vec<u8>, ble_uuid: Option<String>) -> (event:
        DiscoveryEvent)
        ensures
            final(self).known() == peers_after(old(self).known(), data@, hint_view(ble_uuid)),
            event@ == event_after(old(self).known(), data@, hint_view(ble_uuid)),
            final(self).scanner() == old(self).scanner(),
            final(self).subscriber() == old(self).subscriber(),
    {
        let message = match DeviceDiscoveryMessage::decode_length_delimited(data.as_slice()) {
            Ok(message) => message,
            Err(_) => {
                return DiscoveryEvent::Unchanged;
            },
        };
        let event = match message.content {
            Content::DeviceConnectionInfo(received) => {
                let info = apply_hint(received, ble_uuid);
                let device = info.device.clone();
                if self.discovered_devices.insert(info) {
                    DiscoveryEvent::DeviceAdded(device)
                } else {
                    DiscoveryEvent::Unchanged
                }
            },
            Content::OfflineDeviceId(id) => {
                if self.discovered_devices.remove(&id) {
                    DiscoveryEvent::DeviceRemoved(id)
                } else {
                    DiscoveryEvent::Unchanged
                }
            },
        };
        self.notify(&event);
        event
    }

    /// Tells the subscriber, if there is one, of an event.
    fn notify(&self, event: &DiscoveryEvent) {
        match &self.discovery_delegate {
            Some(delegate) => match event {
                DiscoveryEvent::DeviceAdded(device) => {
                    delegate.device_added(device.clone());
                },
                DiscoveryEvent::DeviceRemoved(id) => {
                    delegate.device_removed(id.clone());
                },
                DiscoveryEvent::Unchanged => {},
            },
            None => {},
        }
    }
}

/// Lays the scanner's hint over a connection info.
pub fn apply_hint(info: DeviceConnectionInfo, ble_uuid: Option<String>) -> (hinted:
    DeviceConnectionInfo)
    ensures
        hinted@ == with_hint(info@, hint_view(ble_uuid)),
{
    let DeviceConnectionInfo { device, tcp, ble } = info;
    let ble = match (ble, ble_uuid) {
        (Some(endpoint), Some(uuid)) => Some(BluetoothLeConnectionInfo { uuid, psm: endpoint.psm }),
        (endpoint, _) => endpoint,
    };
    DeviceConnectionInfo { device, tcp, ble }
}

} // verus!
