//! The devices of an Alarm.com system and the JSON:API documents that carry them.

pub mod body;
pub mod device;
pub mod garage_door;
pub mod jsonapi;
pub mod light;
pub mod lock;
pub mod partition;
pub mod sensor;
pub mod system;
pub mod thermostat;
