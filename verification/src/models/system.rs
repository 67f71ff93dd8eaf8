//! System model.

use vstd::prelude::*;

use super::device::{device_name, display_name, opt_text};
use super::jsonapi::{related_ids_of, Resource};
use crate::text::texts;

verus! {

/// System attributes from the API.
#[derive(Debug, Clone, Default)]
pub struct SystemAttributes {
    pub description: Option<String>,
    pub has_snapshots: Option<bool>,
    pub supports_secure_arming: Option<bool>,
    pub remain_logged_in: Option<bool>,
}

/// An Alarm.com system.
#[derive(Debug, Clone)]
pub struct System {
    pub id: String,
    pub name: String,
    /// IDs of partitions in this system.
    pub partition_ids: Vec<String>,
    /// IDs of sensors in this system.
    pub sensor_ids: Vec<String>,
    /// IDs of locks in this system.
    pub lock_ids: Vec<String>,
    /// IDs of garage doors in this system.
    pub garage_door_ids: Vec<String>,
    /// IDs of lights in this system.
    pub light_ids: Vec<String>,
    /// IDs of thermostats in this system.
    pub thermostat_ids: Vec<String>,
    pub attributes: SystemAttributes,
}

impl System {
    /// Builds the system from its resource and the attributes read from it.
    pub fn from_resource(resource: &Resource, attrs: SystemAttributes) -> (s: Self)
        ensures
            s.id@ == resource.id@,
            s.name@ == display_name(opt_text(attrs.description), "System"@, resource.id@),
            texts(s.partition_ids@) == related_ids_of(resource.relationships@, "partitions"@),
            texts(s.sensor_ids@) == related_ids_of(resource.relationships@, "sensors"@),
            texts(s.lock_ids@) == related_ids_of(resource.relationships@, "locks"@),
            texts(s.garage_door_ids@) == related_ids_of(resource.relationships@, "garageDoors"@),
            texts(s.light_ids@) == related_ids_of(resource.relationships@, "lights"@),
            texts(s.thermostat_ids@) == related_ids_of(resource.relationships@, "thermostats"@),
            s.attributes == attrs,
    {
        let name = device_name(&attrs.description, "System", resource.id.as_str());
        System {
            id: resource.id.clone(),
            name,
            partition_ids: resource.related_ids("partitions"),
            sensor_ids: resource.related_ids("sensors"),
            lock_ids: resource.related_ids("locks"),
            garage_door_ids: resource.related_ids("garageDoors"),
            light_ids: resource.related_ids("lights"),
            thermostat_ids: resource.related_ids("thermostats"),
            attributes: attrs,
        }
    }
}

} // verus!
