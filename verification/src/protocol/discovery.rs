//! Messages of discovery: who a device is and where it can be reached.

use vstd::prelude::*;
use vstd::utf8::encode_utf8;
use crate::errors::FramingError;
use crate::protocol::framing::decode_frame;
use crate::protocol::framing::encode_frame;
use crate::protocol::framing::frame;
use crate::protocol::framing::lemma_unframe_frame;
use crate::protocol::framing::unframe;
use crate::protocol::scalar::get_block;
use crate::protocol::scalar::get_int32;
use crate::protocol::scalar::get_opt_string;
use crate::protocol::scalar::opt_string_slot;
use crate::protocol::scalar::slot_opt_string;
use crate::protocol::scalar::slot_block;
use crate::protocol::wire::FieldValue;
use crate::protocol::wire::SlotValue;
use crate::protocol::scalar::get_string;
use crate::protocol::scalar::get_uint32;
use crate::protocol::scalar::int32_slot;
use crate::protocol::scalar::lemma_int32_roundtrip;
use crate::protocol::scalar::lemma_string_roundtrip;
use crate::protocol::scalar::set_int32;
use crate::protocol::scalar::set_string;
use crate::protocol::scalar::set_uint32;
use crate::protocol::scalar::slot_int32;
use crate::protocol::scalar::slot_string;
use crate::protocol::scalar::slot_uint32;
use crate::protocol::scalar::string_slot;
use crate::protocol::scalar::uint32_slot;
use crate::protocol::wire::decode_slots;
use crate::protocol::wire::encode_slots;
use crate::protocol::wire::is_body;
use crate::protocol::wire::lemma_encoded_slots_are_a_body;
use crate::protocol::wire::lemma_slots_roundtrip;
use crate::protocol::wire::message_choice_slot;
use crate::protocol::wire::message_slot;
use crate::protocol::wire::spec_message_choice_slot;
use crate::protocol::wire::spec_message_slot;
use crate::protocol::wire::spec_text_slot;
use crate::protocol::wire::text_slot;
use crate::protocol::wire::read_slots;
use crate::protocol::wire::write_slots;
use crate::protocol::wire::text_choice_slot;
use crate::protocol::wire::spec_text_choice_slot;
use crate::protocol::wire::spec_unused_slot;
use crate::protocol::wire::spec_varint_slot;
use crate::protocol::wire::unused_slot;
use crate::protocol::wire::varint_slot;
use crate::protocol::wire::Shape;
use crate::protocol::wire::Slots;
use crate::protocol::wire::SlotsView;

verus! {

/// What sort of device a peer is.
#[derive(Clone, Copy, Debug, PartialEq, Eq, Structural)]
pub enum DeviceType {
    Mobile,
    Computer,
    Other,
}

impl DeviceType {
    /// The tag that stands for this sort in a `Device`.
    pub open spec fn spec_tag(self) -> i32 {
        match self {
            DeviceType::Mobile => 0,
            DeviceType::Computer => 1,
            DeviceType::Other => 2,
        }
    }

    /// The sort that a tag stands for: every tag but those of a mobile and of
    /// a computer is some other device.
    pub open spec fn spec_from_tag(tag: i32) -> DeviceType {
        if tag == 0 {
            DeviceType::Mobile
        } else if tag == 1 {
            DeviceType::Computer
        } else {
            DeviceType::Other
        }
    }

    /// The tag that stands for this sort in a `Device`.
    pub fn tag(self) -> (t: i32)
        ensures
            t == self.spec_tag(),
    {
        match self {
            DeviceType::Mobile => 0,
            DeviceType::Computer => 1,
            DeviceType::Other => 2,
        }
    }

    /// The sort that a tag stands for.
    pub fn from_tag(tag: i32) -> (t: DeviceType)
        ensures
            t == Self::spec_from_tag(tag),
    {
        if tag == 0 {
            DeviceType::Mobile
        } else if tag == 1 {
            DeviceType::Computer
        } else {
            DeviceType::Other
        }
    }
}

/// The identity of a participant.
#[derive(Debug, PartialEq, Eq)]
pub struct Device {
    pub id: String,
    pub name: String,
    pub device_type: i32,
    pub protocol_version: i32,
}

/// Mathematical content of a `Device`.
pub ghost struct DeviceView {
    pub id: Seq<char>,
    pub name: Seq<char>,
    pub device_type: i32,
    pub protocol_version: i32,
}

impl View for Device {
    type V = DeviceView;

    open spec fn view(&self) -> DeviceView {
        DeviceView {
            id: self.id@,
            name: self.name@,
            device_type: self.device_type,
            protocol_version: self.protocol_version,
        }
    }
}

impl Clone for Device {
    fn clone(&self) -> (r: Device)
        ensures
            r@ == self@,
    {
        Device {
            id: self.id.clone(),
            name: self.name.clone(),
            device_type: self.device_type,
            protocol_version: self.protocol_version,
        }
    }
}

impl DeviceView {
    /// Fields: 1 id, 2 name, 3 device type, 4 protocol version.
    pub open spec fn shape() -> Shape {
        Shape {
            k1: spec_text_slot(),
            k2: spec_text_slot(),
            k3: spec_varint_slot(),
            k4: spec_varint_slot(),
        }
    }

    /// The slots that hold this value: what the encoder writes.
    pub open spec fn slots(self) -> SlotsView {
        SlotsView {
            f1: string_slot(self.id),
            f2: string_slot(self.name),
            f3: int32_slot(self.device_type),
            f4: int32_slot(self.protocol_version),
        }
    }

    /// The value that decoded slots stand for, if they stand for one.
    pub open spec fn from_slots(s: SlotsView) -> Option<DeviceView> {
        match (slot_string(s.f1), slot_string(s.f2)) {
            (Some(id), Some(name)) => Some(
                DeviceView {
                    id,
                    name,
                    device_type: slot_int32(s.f3),
                    protocol_version: slot_int32(s.f4),
                },
            ),
            _ => None,
        }
    }

    /// The body that stands for this device.
    pub open spec fn encode(self) -> Seq<u8> {
        encode_slots(self.slots())
    }

    /// The device that a body stands for, if it stands for one.
    pub open spec fn decode(bytes: Seq<u8>) -> Option<DeviceView> {
        match decode_slots(bytes, Self::shape()) {
            Some(s) => Self::from_slots(s),
            None => None,
        }
    }

    /// Whether each text is short enough for its length to be written.
    pub open spec fn encodable(self) -> bool {
        &&& encode_utf8(self.id).len() <= u64::MAX
        &&& encode_utf8(self.name).len() <= u64::MAX
    }

    /// Decoding the body of a device gives that device, and that body is
    /// a sequence of fields.
    pub proof fn lemma_roundtrip(self)
        requires
            self.encodable(),
        ensures
            Self::decode(self.encode()) == Some(self),
            is_body(self.encode()),
    {
        lemma_string_roundtrip(self.id);
        lemma_string_roundtrip(self.name);
        lemma_int32_roundtrip(self.device_type);
        lemma_int32_roundtrip(self.protocol_version);
        lemma_slots_roundtrip(self.slots(), Self::shape());
        lemma_encoded_slots_are_a_body(self.slots());
    }
}

impl Device {
    /// The body that stands for this device.
    pub fn encode_to_vec(&self) -> (out: Vec<u8>)
        ensures
            out@ == self@.encode(),
    {
        let slots = Slots {
            f1: set_string(&self.id),
            f2: set_string(&self.name),
            f3: set_int32(self.device_type),
            f4: set_int32(self.protocol_version),
        };
        write_slots(&slots)
    }

    /// Reads a device from its body; `None` where the body is not one of a
    /// device.
    pub fn decode(bytes: &[u8]) -> (r: Option<Device>)
        ensures
            match r {
                Some(d) => DeviceView::decode(bytes@) == Some(d@),
                None => DeviceView::decode(bytes@) is None,
            },
    {
        let shape = Shape {
            k1: text_slot(),
            k2: text_slot(),
            k3: varint_slot(),
            k4: varint_slot(),
        };
        let slots = match read_slots(bytes, &shape) {
            Some(s) => s,
            None => {
                return None;
            },
        };
        let device_type = get_int32(&slots.f3);
        let protocol_version = get_int32(&slots.f4);
        let id = match get_string(slots.f1) {
            Some(s) => s,
            None => {
                return None;
            },
        };
        let name = match get_string(slots.f2) {
            Some(s) => s,
            None => {
                return None;
            },
        };
        Some(Device { id, name, device_type, protocol_version })
    }
}

/// Where a device listens for TCP connections.
#[derive(Debug, PartialEq, Eq)]
pub struct TcpConnectionInfo {
    pub hostname: String,
    pub port: u32,
}

/// Mathematical content of a `TcpConnectionInfo`.
pub ghost struct TcpConnectionInfoView {
    pub hostname: Seq<char>,
    pub port: u32,
}

impl View for TcpConnectionInfo {
    type V = TcpConnectionInfoView;

    open spec fn view(&self) -> TcpConnectionInfoView {
        TcpConnectionInfoView { hostname: self.hostname@, port: self.port }
    }
}

impl Clone for TcpConnectionInfo {
    fn clone(&self) -> (r: TcpConnectionInfo)
        ensures
            r@ == self@,
    {
        TcpConnectionInfo { hostname: self.hostname.clone(), port: self.port }
    }
}

impl TcpConnectionInfoView {
    /// Fields: 1 host name, 2 port.
    pub open spec fn shape() -> Shape {
        Shape {
            k1: spec_text_slot(),
            k2: spec_varint_slot(),
            k3: spec_unused_slot(),
            k4: spec_unused_slot(),
        }
    }

    /// The slots that hold this value: what the encoder writes.
    pub open spec fn slots(self) -> SlotsView {
        SlotsView { f1: string_slot(self.hostname), f2: uint32_slot(self.port), f3: None, f4: None }
    }

    /// The value that decoded slots stand for, if they stand for one.
    pub open spec fn from_slots(s: SlotsView) -> Option<TcpConnectionInfoView> {
        match slot_string(s.f1) {
            Some(hostname) => Some(TcpConnectionInfoView { hostname, port: slot_uint32(s.f2) }),
            None => None,
        }
    }

    /// The body that stands for this endpoint.
    pub open spec fn encode(self) -> Seq<u8> {
        encode_slots(self.slots())
    }

    /// The endpoint that a body stands for, if it stands for one.
    pub open spec fn decode(bytes: Seq<u8>) -> Option<TcpConnectionInfoView> {
        match decode_slots(bytes, Self::shape()) {
            Some(s) => Self::from_slots(s),
            None => None,
        }
    }

    /// Whether the host name is short enough for its length to be written.
    pub open spec fn encodable(self) -> bool {
        encode_utf8(self.hostname).len() <= u64::MAX
    }

    /// Decoding the body of an endpoint gives that endpoint, and that body is
    /// a sequence of fields.
    pub proof fn lemma_roundtrip(self)
        requires
            self.encodable(),
        ensures
            Self::decode(self.encode()) == Some(self),
            is_body(self.encode()),
    {
        lemma_string_roundtrip(self.hostname);
        lemma_slots_roundtrip(self.slots(), Self::shape());
        lemma_encoded_slots_are_a_body(self.slots());
    }
}

impl TcpConnectionInfo {
    /// The body that stands for this endpoint.
    pub fn encode_to_vec(&self) -> (out: Vec<u8>)
        ensures
            out@ == self@.encode(),
    {
        let slots = Slots {
            f1: set_string(&self.hostname),
            f2: set_uint32(self.port),
            f3: None,
            f4: None,
        };
        write_slots(&slots)
    }

    /// Reads an endpoint from its body; `None` where the body is not one of
    /// an endpoint.
    pub fn decode(bytes: &[u8]) -> (r: Option<TcpConnectionInfo>)
        ensures
            match r {
                Some(d) => TcpConnectionInfoView::decode(bytes@) == Some(d@),
                None => TcpConnectionInfoView::decode(bytes@) is None,
            },
    {
        let shape = Shape {
            k1: text_slot(),
            k2: varint_slot(),
            k3: unused_slot(),
            k4: unused_slot(),
        };
        let slots = match read_slots(bytes, &shape) {
            Some(s) => s,
            None => {
                return None;
            },
        };
        let port = get_uint32(&slots.f2);
        match get_string(slots.f1) {
            Some(hostname) => Some(TcpConnectionInfo { hostname, port }),
            None => None,
        }
    }
}

/// Where a device accepts Bluetooth LE L2CAP channels.
#[derive(Debug, PartialEq, Eq)]
pub struct BluetoothLeConnectionInfo {
    pub uuid: String,
    pub psm: u32,
}

/// Mathematical content of a `BluetoothLeConnectionInfo`.
pub ghost struct BluetoothLeConnectionInfoView {
    pub uuid: Seq<char>,
    pub psm: u32,
}

impl View for BluetoothLeConnectionInfo {
    type V = BluetoothLeConnectionInfoView;

    open spec fn view(&self) -> BluetoothLeConnectionInfoView {
        BluetoothLeConnectionInfoView { uuid: self.uuid@, psm: self.psm }
    }
}

impl Clone for BluetoothLeConnectionInfo {
    fn clone(&self) -> (r: BluetoothLeConnectionInfo)
        ensures
            r@ == self@,
    {
        BluetoothLeConnectionInfo { uuid: self.uuid.clone(), psm: self.psm }
    }
}

impl BluetoothLeConnectionInfoView {
    /// Fields: 1 uuid, 2 psm.
    pub open spec fn shape() -> Shape {
        Shape {
            k1: spec_text_slot(),
            k2: spec_varint_slot(),
            k3: spec_unused_slot(),
            k4: spec_unused_slot(),
        }
    }

    /// The slots that hold this value: what the encoder writes.
    pub open spec fn slots(self) -> SlotsView {
        SlotsView { f1: string_slot(self.uuid), f2: uint32_slot(self.psm), f3: None, f4: None }
    }

    /// The value that decoded slots stand for, if they stand for one.
    pub open spec fn from_slots(s: SlotsView) -> Option<BluetoothLeConnectionInfoView> {
        match slot_string(s.f1) {
            Some(uuid) => Some(BluetoothLeConnectionInfoView { uuid, psm: slot_uint32(s.f2) }),
            None => None,
        }
    }

    /// The body that stands for this endpoint.
    pub open spec fn encode(self) -> Seq<u8> {
        encode_slots(self.slots())
    }

    /// The endpoint that a body stands for, if it stands for one.
    pub open spec fn decode(bytes: Seq<u8>) -> Option<BluetoothLeConnectionInfoView> {
        match decode_slots(bytes, Self::shape()) {
            Some(s) => Self::from_slots(s),
            None => None,
        }
    }

    /// Whether the uuid is short enough for its length to be written.
    pub open spec fn encodable(self) -> bool {
        encode_utf8(self.uuid).len() <= u64::MAX
    }

    /// Decoding the body of an endpoint gives that endpoint, and that body is
    /// a sequence of fields.
    pub proof fn lemma_roundtrip(self)
        requires
            self.encodable(),
        ensures
            Self::decode(self.encode()) == Some(self),
            is_body(self.encode()),
    {
        lemma_string_roundtrip(self.uuid);
        lemma_slots_roundtrip(self.slots(), Self::shape());
        lemma_encoded_slots_are_a_body(self.slots());
    }
}

impl BluetoothLeConnectionInfo {
    /// The body that stands for this endpoint.
    pub fn encode_to_vec(&self) -> (out: Vec<u8>)
        ensures
            out@ == self@.encode(),
    {
        let slots = Slots {
            f1: set_string(&self.uuid),
            f2: set_uint32(self.psm),
            f3: None,
            f4: None,
        };
        write_slots(&slots)
    }

    /// Reads an endpoint from its body; `None` where the body is not one of
    /// an endpoint.
    pub fn decode(bytes: &[u8]) -> (r: Option<BluetoothLeConnectionInfo>)
        ensures
            match r {
                Some(d) => BluetoothLeConnectionInfoView::decode(bytes@) == Some(d@),
                None => BluetoothLeConnectionInfoView::decode(bytes@) is None,
            },
    {
        let shape = Shape {
            k1: text_slot(),
            k2: varint_slot(),
            k3: unused_slot(),
            k4: unused_slot(),
        };
        let slots = match read_slots(bytes, &shape) {
            Some(s) => s,
            None => {
                return None;
            },
        };
        let psm = get_uint32(&slots.f2);
        match get_string(slots.f1) {
            Some(uuid) => Some(BluetoothLeConnectionInfo { uuid, psm }),
            None => None,
        }
    }
}

/// A device and the endpoints it advertises.
#[derive(Debug, PartialEq, Eq)]
pub struct DeviceConnectionInfo {
    pub device: Device,
    pub tcp: Option<TcpConnectionInfo>,
    pub ble: Option<BluetoothLeConnectionInfo>,
}

/// Mathematical content of a `DeviceConnectionInfo`.
pub ghost struct DeviceConnectionInfoView {
    pub device: DeviceView,
    pub tcp: Option<TcpConnectionInfoView>,
    pub ble: Option<BluetoothLeConnectionInfoView>,
}

/// The view of an optional TCP endpoint.
pub open spec fn tcp_view(t: Option<TcpConnectionInfo>) -> Option<TcpConnectionInfoView> {
    match t {
        Some(info) => Some(info@),
        None => None,
    }
}

/// The view of an optional Bluetooth LE endpoint.
pub open spec fn ble_view(b: Option<BluetoothLeConnectionInfo>) -> Option<
    BluetoothLeConnectionInfoView,
> {
    match b {
        Some(info) => Some(info@),
        None => None,
    }
}

impl View for DeviceConnectionInfo {
    type V = DeviceConnectionInfoView;

    open spec fn view(&self) -> DeviceConnectionInfoView {
        DeviceConnectionInfoView {
            device: self.device@,
            tcp: tcp_view(self.tcp),
            ble: ble_view(self.ble),
        }
    }
}

impl Clone for DeviceConnectionInfo {
    fn clone(&self) -> (r: DeviceConnectionInfo)
        ensures
            r@ == self@,
    {
        DeviceConnectionInfo {
            device: self.device.clone(),
            tcp: match &self.tcp {
                Some(t) => Some(t.clone()),
                None => None,
            },
            ble: match &self.ble {
                Some(b) => Some(b.clone()),
                None => None,
            },
        }
    }
}

impl DeviceConnectionInfoView {
    /// Fields: 1 device, 2 TCP endpoint, 3 Bluetooth LE endpoint.
    pub open spec fn shape() -> Shape {
        Shape {
            k1: spec_message_slot(),
            k2: spec_message_slot(),
            k3: spec_message_slot(),
            k4: spec_unused_slot(),
        }
    }

    /// The slots that hold this value: what the encoder writes.
    pub open spec fn slots(self) -> SlotsView {
        SlotsView {
            f1: Some(FieldValue::Bytes(self.device.encode())),
            f2: match self.tcp {
                Some(t) => Some(FieldValue::Bytes(t.encode())),
                None => None,
            },
            f3: match self.ble {
                Some(b) => Some(FieldValue::Bytes(b.encode())),
                None => None,
            },
            f4: None,
        }
    }

    /// The TCP endpoint in a slot: the outer `None` where the slot holds a
    /// body that is not one of an endpoint.
    pub open spec fn tcp_of(v: Option<FieldValue>) -> Option<Option<TcpConnectionInfoView>> {
        match slot_block(v) {
            Some(b) => match TcpConnectionInfoView::decode(b) {
                Some(t) => Some(Some(t)),
                None => None,
            },
            None => Some(None),
        }
    }

    /// The Bluetooth LE endpoint in a slot: the outer `None` where the slot
    /// holds a body that is not one of an endpoint.
    pub open spec fn ble_of(v: Option<FieldValue>) -> Option<Option<BluetoothLeConnectionInfoView>> {
        match slot_block(v) {
            Some(b) => match BluetoothLeConnectionInfoView::decode(b) {
                Some(t) => Some(Some(t)),
                None => None,
            },
            None => Some(None),
        }
    }

    /// The device is required; each endpoint may be missing.
    pub open spec fn from_slots(s: SlotsView) -> Option<DeviceConnectionInfoView> {
        match slot_block(s.f1) {
            Some(b) => match (DeviceView::decode(b), Self::tcp_of(s.f2), Self::ble_of(s.f3)) {
                (Some(device), Some(tcp), Some(ble)) => Some(
                    DeviceConnectionInfoView { device, tcp, ble },
                ),
                _ => None,
            },
            None => None,
        }
    }

    /// The body that stands for this connection info.
    pub open spec fn encode(self) -> Seq<u8> {
        encode_slots(self.slots())
    }

    /// The connection info that a body stands for, if it stands for one.
    pub open spec fn decode(bytes: Seq<u8>) -> Option<DeviceConnectionInfoView> {
        match decode_slots(bytes, Self::shape()) {
            Some(s) => Self::from_slots(s),
            None => None,
        }
    }

    /// Whether every text and every nested body is short enough for its
    /// length to be written.
    pub open spec fn encodable(self) -> bool {
        &&& self.device.encodable()
        &&& self.device.encode().len() <= u64::MAX
        &&& match self.tcp {
            Some(t) => t.encodable() && t.encode().len() <= u64::MAX,
            None => true,
        }
        &&& match self.ble {
            Some(b) => b.encodable() && b.encode().len() <= u64::MAX,
            None => true,
        }
    }

    /// Decoding the body of a connection info gives that connection info,
    /// and that body is a sequence of fields.
    pub proof fn lemma_roundtrip(self)
        requires
            self.encodable(),
        ensures
            Self::decode(self.encode()) == Some(self),
            is_body(self.encode()),
    {
        self.device.lemma_roundtrip();
        if let Some(t) = self.tcp {
            t.lemma_roundtrip();
        }
        if let Some(b) = self.ble {
            b.lemma_roundtrip();
        }
        lemma_slots_roundtrip(self.slots(), Self::shape());
        lemma_encoded_slots_are_a_body(self.slots());
    }
}

impl DeviceConnectionInfo {
    /// The body that stands for this connection info.
    pub fn encode_to_vec(&self) -> (out: Vec<u8>)
        ensures
            out@ == self@.encode(),
    {
        let slots = Slots {
            f1: Some(SlotValue::Bytes(self.device.encode_to_vec())),
            f2: match &self.tcp {
                Some(t) => Some(SlotValue::Bytes(t.encode_to_vec())),
                None => None,
            },
            f3: match &self.ble {
                Some(b) => Some(SlotValue::Bytes(b.encode_to_vec())),
                None => None,
            },
            f4: None,
        };
        write_slots(&slots)
    }

    /// Reads a connection info from its body; `None` where the body is not
    /// one of a connection info.
    pub fn decode(bytes: &[u8]) -> (r: Option<DeviceConnectionInfo>)
        ensures
            match r {
                Some(d) => DeviceConnectionInfoView::decode(bytes@) == Some(d@),
                None => DeviceConnectionInfoView::decode(bytes@) is None,
            },
    {
        let shape = Shape {
            k1: message_slot(),
            k2: message_slot(),
            k3: message_slot(),
            k4: unused_slot(),
        };
        let slots = match read_slots(bytes, &shape) {
            Some(s) => s,
            None => {
                return None;
            },
        };
        let device = match get_block(slots.f1) {
            Some(b) => match Device::decode(b.as_slice()) {
                Some(d) => d,
                None => {
                    return None;
                },
            },
            None => {
                return None;
            },
        };
        let tcp = match get_block(slots.f2) {
            Some(b) => match TcpConnectionInfo::decode(b.as_slice()) {
                Some(t) => Some(t),
                None => {
                    return None;
                },
            },
            None => None,
        };
        let ble = match get_block(slots.f3) {
            Some(b) => match BluetoothLeConnectionInfo::decode(b.as_slice()) {
                Some(t) => Some(t),
                None => {
                    return None;
                },
            },
            None => None,
        };
        Some(DeviceConnectionInfo { device, tcp, ble })
    }
}

/// What a discovery message announces.
#[derive(Debug, PartialEq, Eq)]
pub enum Content {
    /// A device is present, with these endpoints.
    DeviceConnectionInfo(DeviceConnectionInfo),
    /// The device of this id is gone.
    OfflineDeviceId(String),
}

/// Mathematical content of a `Content`.
pub ghost enum ContentView {
    DeviceConnectionInfo(DeviceConnectionInfoView),
    OfflineDeviceId(Seq<char>),
}

impl View for Content {
    type V = ContentView;

    open spec fn view(&self) -> ContentView {
        match self {
            Content::DeviceConnectionInfo(info) => ContentView::DeviceConnectionInfo(info@),
            Content::OfflineDeviceId(id) => ContentView::OfflineDeviceId(id@),
        }
    }
}

/// An announcement that a scanner picks up.
#[derive(Debug, PartialEq, Eq)]
pub struct DeviceDiscoveryMessage {
    pub content: Content,
}

/// Mathematical content of a `DeviceDiscoveryMessage`.
pub ghost struct DeviceDiscoveryMessageView {
    pub content: ContentView,
}

impl View for DeviceDiscoveryMessage {
    type V = DeviceDiscoveryMessageView;

    open spec fn view(&self) -> DeviceDiscoveryMessageView {
        DeviceDiscoveryMessageView { content: self.content@ }
    }
}

impl DeviceDiscoveryMessageView {
    /// Fields, of which exactly one is present: 1 connection info, 2 id of a
    /// device that went offline.
    pub open spec fn shape() -> Shape {
        Shape {
            k1: spec_message_choice_slot(),
            k2: spec_text_choice_slot(),
            k3: spec_unused_slot(),
            k4: spec_unused_slot(),
        }
    }

    /// The slots that hold this value: what the encoder writes.
    pub open spec fn slots(self) -> SlotsView {
        match self.content {
            ContentView::DeviceConnectionInfo(info) => SlotsView {
                f1: Some(FieldValue::Bytes(info.encode())),
                f2: None,
                f3: None,
                f4: None,
            },
            ContentView::OfflineDeviceId(id) => SlotsView {
                f1: None,
                f2: opt_string_slot(Some(id)),
                f3: None,
                f4: None,
            },
        }
    }

    /// The member that was read last decides; a body without either member
    /// stands for no message.
    pub open spec fn from_slots(s: SlotsView) -> Option<DeviceDiscoveryMessageView> {
        match slot_block(s.f1) {
            Some(b) => match DeviceConnectionInfoView::decode(b) {
                Some(info) => Some(
                    DeviceDiscoveryMessageView { content: ContentView::DeviceConnectionInfo(info) },
                ),
                None => None,
            },
            None => match slot_opt_string(s.f2) {
                Some(Some(id)) => Some(
                    DeviceDiscoveryMessageView { content: ContentView::OfflineDeviceId(id) },
                ),
                _ => None,
            },
        }
    }

    /// The body that stands for this message.
    pub open spec fn encode(self) -> Seq<u8> {
        encode_slots(self.slots())
    }

    /// The message that a body stands for, if it stands for one.
    pub open spec fn decode(bytes: Seq<u8>) -> Option<DeviceDiscoveryMessageView> {
        match decode_slots(bytes, Self::shape()) {
            Some(s) => Self::from_slots(s),
            None => None,
        }
    }

    /// Whether every text and every nested body is short enough for its
    /// length to be written.
    pub open spec fn encodable(self) -> bool {
        match self.content {
            ContentView::DeviceConnectionInfo(info) => info.encodable() && info.encode().len()
                <= u64::MAX,
            ContentView::OfflineDeviceId(id) => encode_utf8(id).len() <= u64::MAX,
        }
    }

    /// Decoding the body of a message gives that message.
    pub proof fn lemma_roundtrip(self)
        requires
            self.encodable(),
        ensures
            Self::decode(self.encode()) == Some(self),
    {
        match self.content {
            ContentView::DeviceConnectionInfo(info) => {
                info.lemma_roundtrip();
            },
            ContentView::OfflineDeviceId(id) => {
                lemma_string_roundtrip(id);
            },
        }
        lemma_slots_roundtrip(self.slots(), Self::shape());
    }
}

impl DeviceDiscoveryMessage {
    /// The body that stands for this message.
    pub fn encode_to_vec(&self) -> (out: Vec<u8>)
        ensures
            out@ == self@.encode(),
    {
        let slots = match &self.content {
            Content::DeviceConnectionInfo(info) => Slots {
                f1: Some(SlotValue::Bytes(info.encode_to_vec())),
                f2: None,
                f3: None,
                f4: None,
            },
            Content::OfflineDeviceId(id) => Slots {
                f1: None,
                f2: Some(SlotValue::Bytes(vstd::slice::slice_to_vec(id.as_str().as_bytes()))),
                f3: None,
                f4: None,
            },
        };
        write_slots(&slots)
    }

    /// Reads a message from its body; `None` where the body is not one of a
    /// discovery message.
    pub fn decode(bytes: &[u8]) -> (r: Option<DeviceDiscoveryMessage>)
        ensures
            match r {
                Some(d) => DeviceDiscoveryMessageView::decode(bytes@) == Some(d@),
                None => DeviceDiscoveryMessageView::decode(bytes@) is None,
            },
    {
        let shape = Shape {
            k1: message_choice_slot(),
            k2: text_choice_slot(),
            k3: unused_slot(),
            k4: unused_slot(),
        };
        let slots = match read_slots(bytes, &shape) {
            Some(s) => s,
            None => {
                return None;
            },
        };
        match get_block(slots.f1) {
            Some(b) => match DeviceConnectionInfo::decode(b.as_slice()) {
                Some(info) => Some(
                    DeviceDiscoveryMessage { content: Content::DeviceConnectionInfo(info) },
                ),
                None => None,
            },
            None => match get_opt_string(slots.f2) {
                Some(Some(id)) => Some(
                    DeviceDiscoveryMessage { content: Content::OfflineDeviceId(id) },
                ),
                _ => None,
            },
        }
    }
}

impl DeviceDiscoveryMessageView {
    /// The frame that carries this discovery message.
    pub open spec fn encode_framed(self) -> Seq<u8> {
        frame(self.encode())
    }

    /// The discovery message in the frame at the front of `bytes`. Bytes behind the
    /// frame are left alone.
    pub open spec fn decode_framed(bytes: Seq<u8>) -> Result<DeviceDiscoveryMessageView, FramingError> {
        match unframe(bytes) {
            Ok((body, _)) => match Self::decode(body) {
                Some(m) => Ok(m),
                None => Err(FramingError::SchemaMismatch),
            },
            Err(e) => Err(e),
        }
    }

    /// Decoding the frame of a discovery message gives that discovery message.
    pub proof fn lemma_framed_roundtrip(self)
        requires
            self.encodable(),
            self.encode().len() <= u64::MAX,
        ensures
            Self::decode_framed(self.encode_framed()) == Ok::<DeviceDiscoveryMessageView, FramingError>(self),
    {
        self.lemma_roundtrip();
        lemma_unframe_frame(self.encode(), Seq::<u8>::empty());
        assert(self.encode_framed() + Seq::<u8>::empty() =~= self.encode_framed());
    }
}

impl DeviceDiscoveryMessage {
    /// The frame that carries this discovery message.
    pub fn encode_length_delimited_to_vec(&self) -> (out: Vec<u8>)
        ensures
            out@ == self@.encode_framed(),
    {
        let body = self.encode_to_vec();
        encode_frame(body.as_slice())
    }

    /// Reads the discovery message in the frame at the front of `bytes`.
    pub fn decode_length_delimited(bytes: &[u8]) -> (r: Result<DeviceDiscoveryMessage, FramingError>)
        ensures
            match r {
                Ok(m) => DeviceDiscoveryMessageView::decode_framed(bytes@) == Ok::<DeviceDiscoveryMessageView, FramingError>(m@),
                Err(e) => DeviceDiscoveryMessageView::decode_framed(bytes@) == Err::<DeviceDiscoveryMessageView, FramingError>(e),
            },
    {
        match decode_frame(bytes) {
            Ok((body, _)) => match DeviceDiscoveryMessage::decode(body.as_slice()) {
                Some(m) => Ok(m),
                None => Err(FramingError::SchemaMismatch),
            },
            Err(e) => Err(e),
        }
    }
}

impl Device {
    /// Whether two devices are the same in every attribute.
    pub fn equals(&self, other: &Device) -> (same: bool)
        ensures
            same == (self@ == other@),
    {
        self.id == other.id && self.name == other.name && self.device_type == other.device_type
            && self.protocol_version == other.protocol_version
    }
}

impl TcpConnectionInfo {
    /// Whether two endpoints are the same.
    pub fn equals(&self, other: &TcpConnectionInfo) -> (same: bool)
        ensures
            same == (self@ == other@),
    {
        self.hostname == other.hostname && self.port == other.port
    }
}

impl BluetoothLeConnectionInfo {
    /// Whether two endpoints are the same.
    pub fn equals(&self, other: &BluetoothLeConnectionInfo) -> (same: bool)
        ensures
            same == (self@ == other@),
    {
        self.uuid == other.uuid && self.psm == other.psm
    }
}

impl DeviceConnectionInfo {
    /// Whether two connection infos are the same: device and both endpoints.
    pub fn equals(&self, other: &DeviceConnectionInfo) -> (same: bool)
        ensures
            same == (self@ == other@),
    {
        let tcp_same = match (&self.tcp, &other.tcp) {
            (Some(a), Some(b)) => a.equals(b),
            (None, None) => true,
            _ => false,
        };
        let ble_same = match (&self.ble, &other.ble) {
            (Some(a), Some(b)) => a.equals(b),
            (None, None) => true,
            _ => false,
        };
        self.device.equals(&other.device) && tcp_same && ble_same
    }
}

} // verus!
