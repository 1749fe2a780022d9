//! Device connection manager: one connected physical unit, its identity
//! snapshot, and the connect → discover → ready lifecycle.
//!
//! The BLE transport itself (connecting, enumerating services, writing) is
//! outside this crate; the manager is driven by the outcomes of those
//! transport calls, handed in as plain values, and decides what the device's
//! state becomes.

use crate::resolver::resolve_control_characteristic;
use crate::resolver::resolved_control;
use crate::resolver::tree_view;
use crate::resolver::BleService;
use crate::text::contains_seq;
use crate::text::contains_str;
use vstd::prelude::*;

verus! {

/// Where a device stands in its connection lifecycle. Any transport failure
/// collapses the state back to `Disconnected`.
#[derive(Debug, Clone, Copy, PartialEq, Eq, Structural)]
pub enum ConnectionState {
    Disconnected,
    Connecting,
    Connected,
    Discovering,
    Ready,
}

/// The mathematical snapshot of a device: its identity texts, holder
/// battery level, resolved control characteristic and lifecycle state.
pub struct DeviceView {
    pub model: Seq<char>,
    pub serial: Seq<char>,
    pub software: Seq<char>,
    pub manufacturer: Seq<char>,
    pub battery: u8,
    pub control_id: Seq<char>,
    pub state: ConnectionState,
}

/// True of the models of the ILUMA sub-family, which accept the extended
/// command set: the model text contains "ILUMA".
pub open spec fn is_iluma_model(model: Seq<char>) -> bool {
    contains_seq(model, "ILUMA"@)
}

/// True when the device can accept commands: the lifecycle reached `Ready`
/// and discovery resolved a control characteristic to write to.
pub open spec fn ready_for_commands(d: DeviceView) -> bool {
    d.state is Ready && d.control_id.len() > 0
}

/// One paired physical unit.
///
/// The identity fields are a snapshot taken at construction; the control
/// characteristic identifier stays empty until a discovery pass finds a
/// match, and commands that need it fail cleanly while it is empty.
pub struct IQOS {
    modelnumber: String,
    serialnumber: String,
    softwarerevision: String,
    manufacturername: String,
    holder_battery_level: u8,
    scp_characteristic_uuid: String,
    state: ConnectionState,
}

impl View for IQOS {
    type V = DeviceView;

    closed spec fn view(&self) -> DeviceView {
        DeviceView {
            model: self.modelnumber@,
            serial: self.serialnumber@,
            software: self.softwarerevision@,
            manufacturer: self.manufacturername@,
            battery: self.holder_battery_level,
            control_id: self.scp_characteristic_uuid@,
            state: self.state,
        }
    }
}

impl IQOS {
    /// Builds a device from its identity texts. The battery level defaults
    /// to zero until refreshed, no control characteristic is resolved yet,
    /// and the lifecycle starts disconnected.
    pub fn new(
        modelnumber: String,
        serialnumber: String,
        softwarerevision: String,
        manufacturername: String,
    ) -> (r: Self)
        ensures
            r@ == (DeviceView {
                model: modelnumber@,
                serial: serialnumber@,
                software: softwarerevision@,
                manufacturer: manufacturername@,
                battery: 0u8,
                control_id: Seq::<char>::empty(),
                state: ConnectionState::Disconnected,
            }),
    {
        proof {
            reveal_strlit("");
            assert(""@ =~= Seq::<char>::empty());
        }
        Self {
            modelnumber,
            serialnumber,
            softwarerevision,
            manufacturername,
            holder_battery_level: 0,
            scp_characteristic_uuid: String::new(),
            state: ConnectionState::Disconnected,
        }
    }

    /// The model number text.
    pub fn model_number(&self) -> (r: &str)
        ensures
            r@ == self@.model,
    {
        self.modelnumber.as_str()
    }

    /// The serial number text.
    pub fn serial_number(&self) -> (r: &str)
        ensures
            r@ == self@.serial,
    {
        self.serialnumber.as_str()
    }

    /// The software revision text.
    pub fn software_revision(&self) -> (r: &str)
        ensures
            r@ == self@.software,
    {
        self.softwarerevision.as_str()
    }

    /// The manufacturer name text.
    pub fn manufacturer_name(&self) -> (r: &str)
        ensures
            r@ == self@.manufacturer,
    {
        self.manufacturername.as_str()
    }

    /// The holder's battery level, in percent, as last refreshed.
    pub fn battery_level(&self) -> (r: u8)
        ensures
            r == self@.battery,
    {
        self.holder_battery_level
    }

    /// The resolved control characteristic identifier; empty until a
    /// discovery pass found a match.
    pub fn control_characteristic_id(&self) -> (r: &str)
        ensures
            r@ == self@.control_id,
    {
        self.scp_characteristic_uuid.as_str()
    }

    /// The lifecycle state the device is in.
    pub fn connection_state(&self) -> (r: ConnectionState)
        ensures
            r == self@.state,
    {
        self.state
    }

    /// True when the device belongs to the ILUMA sub-family.
    pub fn is_iluma(&self) -> (r: bool)
        ensures
            r == is_iluma_model(self@.model),
    {
        contains_str(self.modelnumber.as_str(), "ILUMA")
    }

    /// A connection attempt was handed to the transport.
    pub fn begin_connect(&mut self)
        requires
            old(self)@.state is Disconnected,
        ensures
            final(self)@ == (DeviceView { state: ConnectionState::Connecting, ..old(self)@ }),
    {
        self.state = ConnectionState::Connecting;
    }

    /// The transport reports the link established.
    pub fn on_connected(&mut self)
        requires
            old(self)@.state is Connecting,
        ensures
            final(self)@ == (DeviceView { state: ConnectionState::Connected, ..old(self)@ }),
    {
        self.state = ConnectionState::Connected;
    }

    /// Service enumeration was handed to the transport.
    pub fn begin_discovery(&mut self)
        requires
            old(self)@.state is Connected,
        ensures
            final(self)@ == (DeviceView { state: ConnectionState::Discovering, ..old(self)@ }),
    {
        self.state = ConnectionState::Discovering;
    }

    /// Completes initialization from the service tree the transport
    /// enumerated: resolves the control characteristic, refreshes the
    /// device-info snapshot, and reaches `Ready`.
    ///
    /// Finding no control characteristic is not an error here; it leaves
    /// the identifier as it was (empty, unless an earlier pass had found
    /// one), and every write-dependent command then fails with a not-ready
    /// condition.
    pub fn initialize(&mut self, services: &Vec<BleService>)
        requires
            old(self)@.state is Discovering,
        ensures
            final(self)@.state is Ready,
            match resolved_control(tree_view(services@)) {
                Some(id) => final(self)@ == (DeviceView {
                    state: ConnectionState::Ready,
                    control_id: id,
                    ..old(self)@
                }),
                None => final(self)@ == (DeviceView { state: ConnectionState::Ready, ..old(self)@ }),
            },
    {
        match resolve_control_characteristic(services) {
            Some(id) => {
                self.scp_characteristic_uuid = id;
            },
            None => {},
        }
        self.update_device_info();
        self.state = ConnectionState::Ready;
    }

    /// Refreshes the identity and battery snapshot from the device.
    ///
    /// The read protocol for these values is not part of the documented
    /// command set, so this is an explicit no-op: the snapshot keeps the
    /// values given at construction.
    fn update_device_info(&mut self)
        ensures
            *final(self) == *old(self),
    {
    }

    /// The transport reports the link torn down after an explicit
    /// disconnect: the lifecycle returns to `Disconnected`, whatever the
    /// command state was.
    pub fn disconnect(&mut self)
        ensures
            final(self)@ == (DeviceView { state: ConnectionState::Disconnected, ..old(self)@ }),
    {
        self.state = ConnectionState::Disconnected;
    }

    /// The transport reports a failure: any failure collapses the
    /// lifecycle back to `Disconnected`.
    pub fn on_transport_failure(&mut self)
        ensures
            final(self)@ == (DeviceView { state: ConnectionState::Disconnected, ..old(self)@ }),
    {
        self.state = ConnectionState::Disconnected;
    }
}

} // verus!
