//! The state of one connection: nothing yet, or the device that booted on it
//! with the last reported state of each of its connectors.
use vstd::prelude::*;
use std::collections::HashMap;
use crate::messages::opt_view;

verus! {

/// The last status that a charge point reported for one connector.
#[derive(Debug, Clone)]
pub struct ConnectorInfo {
    pub connector_id: u64,
    /// A `ChargePointStatus` name.
    pub status: String,
    /// A `ChargePointErrorCode` name.
    pub error_code: String,
    /// An RFC 3339 date-time.
    pub timestamp: Option<String>,
    pub vendor_id: Option<String>,
    pub vendor_error_code: Option<String>,
}

/// The device that booted on a connection.
#[derive(Debug, Clone)]
pub struct EvseMetadata {
    /// The identity given to the device when it booted.
    pub id: u128,
    pub charge_point_model: String,
    pub charge_point_serial_number: Option<String>,
    pub charge_point_vendor: String,
    pub firmware_version: Option<String>,
    pub iccid: Option<String>,
    pub imsi: Option<String>,
    /// RFC 3339 date-times of the central system's clock.
    pub boot_time: String,
    pub last_heartbeat_time: String,
    /// Each connector's last report, by connector id.
    pub connector_info: HashMap<u64, ConnectorInfo>,
}

/// The state of a connection.
#[derive(Debug, Clone)]
pub enum EvseState {
    WebsocketConnected(Box<EvseMetadata>),
    Empty,
}

pub struct ConnectorInfoV {
    pub connector_id: u64,
    pub status: Seq<char>,
    pub error_code: Seq<char>,
    pub timestamp: Option<Seq<char>>,
    pub vendor_id: Option<Seq<char>>,
    pub vendor_error_code: Option<Seq<char>>,
}

impl View for ConnectorInfo {
    type V = ConnectorInfoV;

    open spec fn view(&self) -> ConnectorInfoV {
        ConnectorInfoV {
            connector_id: self.connector_id,
            status: self.status@,
            error_code: self.error_code@,
            timestamp: opt_view(self.timestamp),
            vendor_id: opt_view(self.vendor_id),
            vendor_error_code: opt_view(self.vendor_error_code),
        }
    }
}

pub struct EvseMetadataV {
    pub id: u128,
    pub charge_point_model: Seq<char>,
    pub charge_point_serial_number: Option<Seq<char>>,
    pub charge_point_vendor: Seq<char>,
    pub firmware_version: Option<Seq<char>>,
    pub iccid: Option<Seq<char>>,
    pub imsi: Option<Seq<char>>,
    pub boot_time: Seq<char>,
    pub last_heartbeat_time: Seq<char>,
    pub connector_info: Map<u64, ConnectorInfoV>,
}

impl View for EvseMetadata {
    type V = EvseMetadataV;

    open spec fn view(&self) -> EvseMetadataV {
        EvseMetadataV {
            id: self.id,
            charge_point_model: self.charge_point_model@,
            charge_point_serial_number: opt_view(self.charge_point_serial_number),
            charge_point_vendor: self.charge_point_vendor@,
            firmware_version: opt_view(self.firmware_version),
            iccid: opt_view(self.iccid),
            imsi: opt_view(self.imsi),
            boot_time: self.boot_time@,
            last_heartbeat_time: self.last_heartbeat_time@,
            connector_info: self.connector_info@.map_values(|c: ConnectorInfo| c@),
        }
    }
}

pub enum EvseStateV {
    Connected(EvseMetadataV),
    Empty,
}

impl View for EvseState {
    type V = EvseStateV;

    open spec fn view(&self) -> EvseStateV {
        match self {
            EvseState::WebsocketConnected(md) => EvseStateV::Connected(md@),
            EvseState::Empty => EvseStateV::Empty,
        }
    }
}

/// A connection's state before anything has been received on it.
pub fn new_session() -> (r: EvseState)
    ensures
        r is Empty,
{
    EvseState::Empty
}

impl EvseMetadata {
    /// A device that has just booted: no connector has reported yet, and
    /// the boot is also its last sign of life.
    pub fn new(
        id: u128,
        charge_point_vendor: String,
        charge_point_model: String,
        charge_point_serial_number: Option<String>,
        firmware_version: Option<String>,
        iccid: Option<String>,
        imsi: Option<String>,
        boot_time: String,
    ) -> (r: Self)
        ensures
            r@ == (EvseMetadataV {
                id,
                charge_point_model: charge_point_model@,
                charge_point_serial_number: opt_view(charge_point_serial_number),
                charge_point_vendor: charge_point_vendor@,
                firmware_version: opt_view(firmware_version),
                iccid: opt_view(iccid),
                imsi: opt_view(imsi),
                boot_time: boot_time@,
                last_heartbeat_time: boot_time@,
                connector_info: Map::empty(),
            }),
    {
        let last_heartbeat_time = boot_time.clone();
        let r = EvseMetadata {
            id,
            charge_point_vendor,
            charge_point_model,
            charge_point_serial_number,
            firmware_version,
            iccid,
            imsi,
            boot_time,
            last_heartbeat_time,
            connector_info: HashMap::new(),
        };
        assert(r.connector_info@.map_values(|c: ConnectorInfo| c@) =~= Map::<u64, ConnectorInfoV>::empty());
        r
    }

    /// Records a connector's report, replacing whatever that connector
    /// reported before.
    pub fn update_info(&mut self, connector_info: ConnectorInfo)
        ensures
            final(self)@ == (EvseMetadataV {
                connector_info: old(self)@.connector_info.insert(
                    connector_info.connector_id,
                    connector_info@,
                ),
                ..old(self)@
            }),
    {
        broadcast use vstd::std_specs::hash::group_hash_axioms;
        let ghost id = connector_info.connector_id;
        let ghost info = connector_info@;
        self.connector_info.insert(connector_info.connector_id, connector_info);
        assert(self.connector_info@.map_values(|c: ConnectorInfo| c@) =~= old(self)@.connector_info.insert(id, info));
    }

    /// Notes the time of a heartbeat.
    pub fn record_heartbeat(&mut self, now: String)
        ensures
            final(self)@ == (EvseMetadataV { last_heartbeat_time: now@, ..old(self)@ }),
    {
        self.last_heartbeat_time = now;
    }
}

} // verus!
