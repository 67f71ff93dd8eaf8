use alarm_dot_com::models::body::BodyValue;
use alarm_dot_com::models::device::{device_name, Device, ResourceType};
use alarm_dot_com::models::garage_door::{
    GarageDoor, GarageDoorAttributes, GarageDoorCommand, GarageDoorState,
};
use alarm_dot_com::models::jsonapi::{
    Relationship, RelationshipData, Relationships, Resource, ResourceIdentifier,
};
use alarm_dot_com::models::light::{Light, LightAttributes, LightCommand, LightState};
use alarm_dot_com::models::lock::{Lock, LockAttributes, LockCommand, LockState};
use alarm_dot_com::models::partition::{
    build_arming_body, ArmingOption, Partition, PartitionAttributes, PartitionCommand,
    PartitionState,
};
use alarm_dot_com::models::sensor::{Sensor, SensorAttributes, SensorState, SensorType};
use alarm_dot_com::models::system::{System, SystemAttributes};
use alarm_dot_com::models::thermostat::{FanMode, ThermostatMode};

fn ids(list: &[&str]) -> RelationshipData {
    RelationshipData::Many(
        list.iter()
            .map(|i| ResourceIdentifier { id: i.to_string(), resource_type: "t".to_string() })
            .collect(),
    )
}

fn resource(id: &str, entries: Vec<(&str, RelationshipData)>) -> Resource {
    let mut relationships = Relationships::new();
    for (k, d) in entries {
        relationships.insert(k.to_string(), Relationship { data: d });
    }
    Resource {
        id: id.to_string(),
        resource_type: "devices/partition".to_string(),
        attributes: serde_json::Value::Null,
        relationships,
    }
}

#[test]
fn partition_state_codes() {
    assert_eq!(PartitionState::from_code(0), PartitionState::Unknown);
    assert_eq!(PartitionState::from_code(1), PartitionState::Disarmed);
    assert_eq!(PartitionState::from_code(2), PartitionState::ArmedStay);
    assert_eq!(PartitionState::from_code(3), PartitionState::ArmedAway);
    assert_eq!(PartitionState::from_code(4), PartitionState::ArmedNight);
    assert_eq!(PartitionState::from_code(5), PartitionState::Hidden);
    assert_eq!(PartitionState::from_code(6), PartitionState::Unknown);
    assert!(!PartitionState::Disarmed.is_armed());
    assert!(!PartitionState::Unknown.is_armed());
    assert!(PartitionState::ArmedStay.is_armed());
    assert!(PartitionState::ArmedAway.is_armed());
    assert!(PartitionState::ArmedNight.is_armed());
    assert!(PartitionState::Hidden.is_armed());
    assert_eq!(PartitionState::ArmedStay.to_string(), "Armed Stay");
    assert_eq!(PartitionState::ArmedNight.to_string(), "Armed Night");
    assert_eq!(PartitionState::Disarmed.to_string(), "Disarmed");
}

#[test]
fn arming_option_keys_and_commands() {
    assert_eq!(ArmingOption::BypassSensors.api_key(), "forceBypass");
    assert_eq!(ArmingOption::NoEntryDelay.api_key(), "noEntryDelay");
    assert_eq!(ArmingOption::SilentArming.api_key(), "silentArming");
    assert_eq!(ArmingOption::NightArming.api_key(), "nightArming");
    assert_eq!(ArmingOption::SelectivelyBypassSensors.api_key(), "selectiveBypass");
    assert_eq!(ArmingOption::ForceArm.api_key(), "forceArm");
    assert_eq!(PartitionCommand::Disarm.api_action(), "disarm");
    assert_eq!(PartitionCommand::ArmStay.api_action(), "armStay");
    assert_eq!(PartitionCommand::ArmAway.api_action(), "armAway");
}

#[test]
fn arming_body_sets_given_options() {
    let body = build_arming_body(&[ArmingOption::BypassSensors, ArmingOption::SilentArming]);
    let fields: Vec<(&str, BodyValue)> = body.fields.iter().map(|(k, v)| (k.as_str(), *v)).collect();
    assert_eq!(
        fields,
        vec![
            ("forceBypass", BodyValue::Bool(true)),
            ("noEntryDelay", BodyValue::Bool(false)),
            ("silentArming", BodyValue::Bool(true)),
            ("nightArming", BodyValue::Bool(false)),
            ("selectiveBypass", BodyValue::Bool(false)),
            ("forceArm", BodyValue::Bool(false)),
            ("statePollOnly", BodyValue::Bool(false)),
        ]
    );
    let empty = build_arming_body(&[]);
    assert!(empty.fields.iter().all(|(_, v)| *v == BodyValue::Bool(false)));
    assert_eq!(empty.fields.len(), 7);
}

#[test]
fn partition_from_resource_collects_children() {
    let res = resource(
        "77",
        vec![
            ("sensors", ids(&["s-1", "s-2"])),
            ("system", ids(&["sys"])),
            ("locks", RelationshipData::Single(ResourceIdentifier {
                id: "l-1".to_string(),
                resource_type: "devices/lock".to_string(),
            })),
        ],
    );
    let attrs = PartitionAttributes { state: 2, desired_state: 3, ..Default::default() };
    let p = Partition::from_resource(&res, attrs);
    assert_eq!(p.id, "77");
    assert_eq!(p.name, "Partition 77");
    assert_eq!(p.state, PartitionState::ArmedStay);
    assert_eq!(p.desired_state, PartitionState::ArmedAway);
    assert!(!p.has_active_alarm);
    assert_eq!(p.child_device_ids, vec!["s-1", "s-2", "l-1"]);
    assert_eq!(Device::id(&p), "77");
    assert_eq!(Device::name(&p), "Partition 77");
    assert_eq!(<Partition as Device>::resource_type(), ResourceType::Partition);
}

#[test]
fn partition_uses_description_and_alarm_flag() {
    let attrs = PartitionAttributes {
        state: 1,
        description: Some("House".to_string()),
        has_active_alarm: Some(true),
        ..Default::default()
    };
    let p = Partition::from_resource(&resource("1", vec![]), attrs);
    assert_eq!(p.name, "House");
    assert!(p.has_active_alarm);
    assert!(p.child_device_ids.is_empty());
}

#[test]
fn sensor_states_and_types() {
    assert_eq!(SensorState::from_code(0), SensorState::Unknown);
    assert_eq!(SensorState::from_code(1), SensorState::Closed);
    assert_eq!(SensorState::from_code(2), SensorState::Open);
    assert_eq!(SensorState::from_code(3), SensorState::Idle);
    assert_eq!(SensorState::from_code(4), SensorState::Active);
    assert_eq!(SensorState::from_code(5), SensorState::Dry);
    assert_eq!(SensorState::from_code(6), SensorState::Wet);
    assert_eq!(SensorState::from_code(7), SensorState::Unknown);
    assert_eq!(SensorState::Wet.to_string(), "Wet");
    assert_eq!(SensorType::DoorWindow.to_string(), "Door/Window");
    assert_eq!(SensorType::CarbonMonoxide.to_string(), "CO");
    assert_eq!(SensorType::GlassBreak.to_string(), "Glass Break");
}

#[test]
fn sensor_from_resource_maps_device_type() {
    let cases = [
        (Some(1), SensorType::DoorWindow),
        (Some(2), SensorType::Motion),
        (Some(5), SensorType::GlassBreak),
        (Some(6), SensorType::Smoke),
        (Some(8), SensorType::CarbonMonoxide),
        (Some(9), SensorType::Flood),
        (Some(10), SensorType::Temperature),
        (Some(14), SensorType::Tilt),
        (Some(16), SensorType::Shock),
        (Some(19), SensorType::Freeze),
        (Some(3), SensorType::Other),
        (None, SensorType::Other),
    ];
    for (code, expected) in cases {
        let attrs = SensorAttributes { state: 2, device_type: code, ..Default::default() };
        let s = Sensor::from_resource(&resource("5", vec![]), attrs);
        assert_eq!(s.sensor_type, expected);
        assert_eq!(s.state, SensorState::Open);
        assert_eq!(s.name, "Sensor 5");
    }
    let attrs = SensorAttributes {
        is_bypassed: Some(true),
        low_battery: Some(false),
        malfunction: Some(true),
        ..Default::default()
    };
    let s = Sensor::from_resource(&resource("5", vec![]), attrs);
    assert!(s.is_bypassed);
    assert!(!s.low_battery);
    assert!(s.malfunction);
}

#[test]
fn lock_model() {
    assert_eq!(LockState::from_code(1), LockState::Locked);
    assert_eq!(LockState::from_code(2), LockState::Unlocked);
    assert_eq!(LockState::from_code(0), LockState::Unknown);
    assert_eq!(LockState::Unlocked.to_string(), "Unlocked");
    assert_eq!(LockCommand::Lock.api_action(), "lock");
    assert_eq!(LockCommand::Unlock.api_action(), "unlock");
    let attrs = LockAttributes {
        state: 1,
        desired_state: 2,
        description: Some("Front".to_string()),
        low_battery: Some(true),
        ..Default::default()
    };
    let l = Lock::from_resource(&resource("9", vec![]), attrs);
    assert_eq!(l.name, "Front");
    assert_eq!(l.state, LockState::Locked);
    assert_eq!(l.desired_state, LockState::Unlocked);
    assert!(l.low_battery);
    assert!(!l.malfunction);
}

#[test]
fn garage_door_model() {
    assert_eq!(GarageDoorState::from_code(1), GarageDoorState::Open);
    assert_eq!(GarageDoorState::from_code(2), GarageDoorState::Closed);
    assert_eq!(GarageDoorState::from_code(3), GarageDoorState::Opening);
    assert_eq!(GarageDoorState::from_code(4), GarageDoorState::Closing);
    assert_eq!(GarageDoorState::from_code(5), GarageDoorState::Unknown);
    assert_eq!(GarageDoorState::Closing.to_string(), "Closing");
    assert_eq!(GarageDoorCommand::Open.api_action(), "open");
    assert_eq!(GarageDoorCommand::Close.api_action(), "close");
    let g = GarageDoor::from_resource(
        &resource("g1", vec![]),
        GarageDoorAttributes { state: 4, ..Default::default() },
    );
    assert_eq!(g.name, "Garage Door g1");
    assert_eq!(g.state, GarageDoorState::Closing);
}

#[test]
fn light_model() {
    assert_eq!(LightState::from_code(1), LightState::On);
    assert_eq!(LightState::from_code(2), LightState::Off);
    assert_eq!(LightState::from_code(9), LightState::Unknown);
    assert_eq!(LightState::On.to_string(), "On");
    assert_eq!(LightCommand::TurnOn.api_action(), "turnOn");
    assert_eq!(LightCommand::TurnOff.api_action(), "turnOff");
    let l = Light::from_resource(
        &resource("3", vec![]),
        LightAttributes { state: 1, light_level: Some(40), is_dimmer: Some(true), ..Default::default() },
    );
    assert_eq!(l.name, "Light 3");
    assert_eq!(l.brightness, Some(40));
    assert!(l.is_dimmer);
    assert_eq!(l.state, LightState::On);
}

#[test]
fn thermostat_modes() {
    assert_eq!(ThermostatMode::from_code(1), ThermostatMode::Off);
    assert_eq!(ThermostatMode::from_code(2), ThermostatMode::Heat);
    assert_eq!(ThermostatMode::from_code(3), ThermostatMode::Cool);
    assert_eq!(ThermostatMode::from_code(4), ThermostatMode::Auto);
    assert_eq!(ThermostatMode::from_code(5), ThermostatMode::AuxHeat);
    assert_eq!(ThermostatMode::from_code(0), ThermostatMode::Unknown);
    assert_eq!(ThermostatMode::AuxHeat.to_string(), "Aux Heat");
    assert_eq!(FanMode::from_code(1), FanMode::Auto);
    assert_eq!(FanMode::from_code(2), FanMode::On);
    assert_eq!(FanMode::from_code(3), FanMode::Circulate);
    assert_eq!(FanMode::from_code(0), FanMode::Unknown);
    assert_eq!(FanMode::Circulate.to_string(), "Circulate");
}

#[test]
fn system_from_resource_reads_device_ids() {
    let res = resource(
        "sys-1",
        vec![
            ("partitions", ids(&["p-1"])),
            ("sensors", ids(&["s-1", "s-2"])),
            ("locks", ids(&[])),
            ("lights", RelationshipData::Null),
            ("thermostats", ids(&["t-1"])),
        ],
    );
    let s = System::from_resource(&res, SystemAttributes::default());
    assert_eq!(s.name, "System sys-1");
    assert_eq!(s.partition_ids, vec!["p-1"]);
    assert_eq!(s.sensor_ids, vec!["s-1", "s-2"]);
    assert!(s.lock_ids.is_empty());
    assert!(s.garage_door_ids.is_empty());
    assert!(s.light_ids.is_empty());
    assert_eq!(s.thermostat_ids, vec!["t-1"]);
}

#[test]
fn resource_type_paths() {
    assert_eq!(ResourceType::Partition.api_path(), "devices/partitions");
    assert_eq!(ResourceType::GarageDoor.api_path(), "devices/garageDoors");
    assert_eq!(ResourceType::System.api_path(), "systems/systems");
    assert_eq!(ResourceType::ImageSensor.api_path(), "devices/imageSensors");
    assert_eq!(ResourceType::Partition.type_string(), "devices/partition");
    assert_eq!(ResourceType::WaterValve.type_string(), "devices/waterValve");
    assert_eq!(ResourceType::System.type_string(), "systems/system");
    assert_eq!(ResourceType::GarageDoor.to_string(), "GarageDoor");
    assert_eq!(ResourceType::WaterSensor.to_string(), "WaterSensor");
}

#[test]
fn device_name_defaults_to_kind_and_id() {
    assert_eq!(device_name(&None, "Thermostat", "12"), "Thermostat 12");
    assert_eq!(device_name(&Some("Hall".to_string()), "Thermostat", "12"), "Hall");
}
