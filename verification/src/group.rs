//! Groups of devices.

use crate::device::Device;
use crate::network::NetworkConfig;
use crate::outside::fresh_uuid;
use uuid::Uuid;
use vstd::prelude::*;

verus! {

/// What a group stands for.
#[derive(Debug, Clone, Copy, PartialEq, Eq, Structural)]
pub enum GroupType {
    Group,
    Room,
    House,
}

/// Devices that are addressed together.
#[derive(Debug)]
pub struct DeviceGroup {
    pub devices: Vec<Device>,
    pub name: String,
    pub id: Uuid,
    pub group_type: GroupType,
    pub network_config: NetworkConfig,
}

impl Clone for DeviceGroup {
    fn clone(&self) -> (copy: Self)
        ensures
            copy.devices@ == self.devices@,
            copy.name == self.name,
            copy.id == self.id,
            copy.group_type == self.group_type,
            copy.network_config == self.network_config,
    {
        let devices = self.devices.clone();
        assert(devices@ =~= self.devices@);
        DeviceGroup {
            devices,
            name: self.name.clone(),
            id: self.id,
            group_type: self.group_type,
            network_config: self.network_config,
        }
    }
}

impl DeviceGroup {
    /// A group that is made from the given parts: its devices, or none; its
    /// identifier, or else `fresh_id`; its network settings, or else the
    /// standard ones.
    pub fn with_id(
        name: String,
        group_type: GroupType,
        devices: Option<Vec<Device>>,
        id: Option<Uuid>,
        network_config: Option<NetworkConfig>,
        fresh_id: Uuid,
    ) -> (r: Self)
        ensures
            r.name == name,
            r.group_type == group_type,
            r.devices@ == match devices {
                Some(given) => given@,
                None => Seq::<Device>::empty(),
            },
            r.id == match id {
                Some(given) => given,
                None => fresh_id,
            },
            r.network_config == match network_config {
                Some(given) => given,
                None => NetworkConfig::spec_standard(),
            },
    {
        DeviceGroup {
            devices: match devices {
                Some(given) => given,
                None => Vec::new(),
            },
            name,
            id: match id {
                Some(given) => given,
                None => fresh_id,
            },
            group_type,
            network_config: match network_config {
                Some(given) => given,
                None => NetworkConfig::standard(),
            },
        }
    }

    /// A group that is made from the given parts: its devices, or none; its
    /// identifier, or else a fresh one; its network settings, or else the
    /// standard ones.
    pub fn new(
        name: String,
        group_type: GroupType,
        devices: Option<Vec<Device>>,
        id: Option<Uuid>,
        network_config: Option<NetworkConfig>,
    ) -> (r: Self)
        ensures
            r.name == name,
            r.group_type == group_type,
            r.devices@ == match devices {
                Some(given) => given@,
                None => Seq::<Device>::empty(),
            },
            id is Some ==> r.id == id->0,
            r.network_config == match network_config {
                Some(given) => given,
                None => NetworkConfig::spec_standard(),
            },
    {
        let fresh_id = match id {
            Some(given) => given,
            None => fresh_uuid(),
        };
        Self::with_id(name, group_type, devices, id, network_config, fresh_id)
    }
}

} // verus!
