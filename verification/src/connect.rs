//! The way to a peer: TCP first, Bluetooth LE where TCP fails.

use vstd::prelude::*;
use crate::errors::ConnectErrors;
use crate::errors::ConnectErrorsView;
use crate::nearby::ConnectionMedium;
use crate::protocol::discovery::DeviceConnectionInfo;
use crate::protocol::discovery::DeviceConnectionInfoView;

verus! {

/// What a sender does next to reach a peer.
#[derive(Debug, PartialEq, Eq)]
pub enum ConnectStep {
    /// Open a TCP connection to this host and port.
    Tcp { hostname: String, port: u16 },
    /// Ask the Bluetooth LE client for an L2CAP channel to this peripheral.
    Ble { peripheral_uuid: String, psm: u32 },
    /// Give up with this error.
    Fail(ConnectErrors),
}

/// Mathematical content of a `ConnectStep`.
pub ghost enum ConnectStepView {
    Tcp { hostname: Seq<char>, port: u16 },
    Ble { peripheral_uuid: Seq<char>, psm: u32 },
    Fail(ConnectErrorsView),
}

impl View for ConnectStep {
    type V = ConnectStepView;

    open spec fn view(&self) -> ConnectStepView {
        match self {
            ConnectStep::Tcp { hostname, port } => ConnectStepView::Tcp {
                hostname: hostname@,
                port: *port,
            },
            ConnectStep::Ble { peripheral_uuid, psm } => ConnectStepView::Ble {
                peripheral_uuid: peripheral_uuid@,
                psm: *psm,
            },
            ConnectStep::Fail(error) => ConnectStepView::Fail(error@),
        }
    }
}

impl ConnectStep {
    /// The medium that this step uses, if it uses one.
    pub fn medium(&self) -> (medium: Option<ConnectionMedium>)
        ensures
            medium == match self@ {
                ConnectStepView::Tcp { .. } => Some(ConnectionMedium::WiFi),
                ConnectStepView::Ble { .. } => Some(ConnectionMedium::BLE),
                ConnectStepView::Fail(_) => None,
            },
    {
        match self {
            ConnectStep::Tcp { .. } => Some(ConnectionMedium::WiFi),
            ConnectStep::Ble { .. } => Some(ConnectionMedium::BLE),
            ConnectStep::Fail(_) => None,
        }
    }
}

/// The view of an optional connection info.
pub open spec fn details_view(details: Option<DeviceConnectionInfo>) -> Option<
    DeviceConnectionInfoView,
> {
    match details {
        Some(info) => Some(info@),
        None => None,
    }
}

/// The TCP endpoint to connect to: the info has to name one, with a port
/// that a socket address can hold.
pub open spec fn tcp_target(info: DeviceConnectionInfoView) -> Result<
    (Seq<char>, u16),
    ConnectErrorsView,
> {
    match info.tcp {
        None => Err(ConnectErrorsView::FailedToGetTcpDetails),
        Some(tcp) => if tcp.port > u16::MAX {
            Err(ConnectErrorsView::FailedToGetSocketAddress)
        } else {
            Ok((tcp.hostname, tcp.port as u16))
        },
    }
}

/// The step that follows a failure of TCP: Bluetooth LE where the info
/// names such an endpoint and a client for it was set.
pub open spec fn fallback_step(info: DeviceConnectionInfoView, has_l2cap_client: bool) -> ConnectStepView {
    match info.ble {
        None => ConnectStepView::Fail(ConnectErrorsView::FailedToGetBleDetails),
        Some(ble) => if has_l2cap_client {
            ConnectStepView::Ble { peripheral_uuid: ble.uuid, psm: ble.psm }
        } else {
            ConnectStepView::Fail(ConnectErrorsView::InternalBleHandlerNotAvailable)
        },
    }
}

/// The first step towards a peer: TCP where its connection info names a TCP
/// endpoint, the fallback otherwise; nothing can be done for a peer that is
/// not known.
pub open spec fn first_step(details: Option<DeviceConnectionInfoView>, has_l2cap_client: bool) -> ConnectStepView {
    match details {
        None => ConnectStepView::Fail(ConnectErrorsView::FailedToGetConnectionDetails),
        Some(info) => match tcp_target(info) {
            Ok((hostname, port)) => ConnectStepView::Tcp { hostname, port },
            Err(_) => fallback_step(info, has_l2cap_client),
        },
    }
}

/// The TCP endpoint of a peer.
pub fn connect_tcp(connection_details: &DeviceConnectionInfo) -> (target: Result<
    (String, u16),
    ConnectErrors,
>)
    ensures
        match target {
            Ok((hostname, port)) => tcp_target(connection_details@) == Ok::<
                (Seq<char>, u16),
                ConnectErrorsView,
            >((hostname@, port)),
            Err(error) => tcp_target(connection_details@) == Err::<
                (Seq<char>, u16),
                ConnectErrorsView,
            >(error@),
        },
{
    match &connection_details.tcp {
        None => Err(ConnectErrors::FailedToGetTcpDetails),
        Some(tcp) => if tcp.port > 0xffff {
            Err(ConnectErrors::FailedToGetSocketAddress)
        } else {
            Ok((tcp.hostname.clone(), tcp.port as u16))
        },
    }
}

/// The step that follows a failure of TCP.
pub fn connect_fallback(connection_details: &DeviceConnectionInfo, has_l2cap_client: bool) -> (step:
    ConnectStep)
    ensures
        step@ == fallback_step(connection_details@, has_l2cap_client),
{
    match &connection_details.ble {
        None => ConnectStep::Fail(ConnectErrors::FailedToGetBleDetails),
        Some(ble) => if has_l2cap_client {
            ConnectStep::Ble { peripheral_uuid: ble.uuid.clone(), psm: ble.psm }
        } else {
            ConnectStep::Fail(ConnectErrors::InternalBleHandlerNotAvailable)
        },
    }
}

/// The first step towards a peer whose connection info was looked up.
pub fn connect(connection_details: &Option<DeviceConnectionInfo>, has_l2cap_client: bool) -> (step:
    ConnectStep)
    ensures
        step@ == first_step(details_view(*connection_details), has_l2cap_client),
{
    match connection_details {
        None => ConnectStep::Fail(ConnectErrors::FailedToGetConnectionDetails),
        Some(info) => match connect_tcp(info) {
            Ok((hostname, port)) => ConnectStep::Tcp { hostname, port },
            Err(_) => connect_fallback(info, has_l2cap_client),
        },
    }
}

/// Without a Bluetooth LE endpoint there is no fallback: after a failure of
/// TCP the step is the failure to get the Bluetooth LE details, with or
/// without a client. With an endpoint and a client the step is Bluetooth
/// LE, to that endpoint.
pub proof fn lemma_fallback_needs_an_endpoint(info: DeviceConnectionInfoView, has_l2cap_client: bool)
    ensures
        info.ble is None ==> fallback_step(info, has_l2cap_client) == ConnectStepView::Fail(
            ConnectErrorsView::FailedToGetBleDetails,
        ),
        info.ble is Some && has_l2cap_client ==> fallback_step(info, has_l2cap_client) == (
        ConnectStepView::Ble { peripheral_uuid: info.ble->0.uuid, psm: info.ble->0.psm }),
        info.ble is Some && !has_l2cap_client ==> fallback_step(info, has_l2cap_client)
            == ConnectStepView::Fail(ConnectErrorsView::InternalBleHandlerNotAvailable),
{
}

} // verus!
