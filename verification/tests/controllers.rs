use alarm_dot_com::controllers::{garage_doors, lights, locks, partitions, sensors, systems, thermostats};
use alarm_dot_com::controllers::{listed_or_empty, CommandRequest};
use alarm_dot_com::error::AlarmError;
use alarm_dot_com::models::body::BodyValue;
use alarm_dot_com::models::device::ResourceType;
use alarm_dot_com::models::jsonapi::{
    ApiResponse, MultiDocument, Relationships, Resource, SingleDocument,
};
use alarm_dot_com::models::partition::ArmingOption;
use alarm_dot_com::models::thermostat::ThermostatMode;

fn fields(r: &CommandRequest) -> Vec<(&str, BodyValue)> {
    r.body.fields.iter().map(|(k, v)| (k.as_str(), *v)).collect()
}

fn poll() -> Vec<(&'static str, BodyValue)> {
    vec![("statePollOnly", BodyValue::Bool(false))]
}

fn resource(id: &str) -> Resource {
    Resource {
        id: id.to_string(),
        resource_type: "devices/lock".to_string(),
        attributes: serde_json::Value::Null,
        relationships: Relationships::new(),
    }
}

fn empty() -> ApiResponse {
    ApiResponse::Multi(MultiDocument { data: vec![], included: vec![] })
}

#[test]
fn simple_commands() {
    let cases = [
        (garage_doors::open("g"), ResourceType::GarageDoor, "open"),
        (garage_doors::close("g"), ResourceType::GarageDoor, "close"),
        (locks::lock("g"), ResourceType::Lock, "lock"),
        (locks::unlock("g"), ResourceType::Lock, "unlock"),
        (lights::turn_on("g"), ResourceType::Light, "turnOn"),
        (lights::turn_off("g"), ResourceType::Light, "turnOff"),
        (partitions::clear_faults("g"), ResourceType::Partition, "clearIssues"),
    ];
    for (req, rt, action) in cases {
        assert_eq!(req.resource_type, rt);
        assert_eq!(req.id, "g");
        assert_eq!(req.action, action);
        assert_eq!(fields(&req), poll());
    }
}

#[test]
fn brightness_is_clamped() {
    let r = lights::set_brightness("7", 150);
    assert_eq!(r.action, "setLevel");
    assert_eq!(
        fields(&r),
        vec![("statePollOnly", BodyValue::Bool(false)), ("lightLevel", BodyValue::Number(100))]
    );
    let r = lights::set_brightness("7", 42);
    assert_eq!(fields(&r)[1], ("lightLevel", BodyValue::Number(42)));
}

#[test]
fn arming_commands() {
    let r = partitions::arm_stay("p", &[ArmingOption::ForceArm]);
    assert_eq!(r.action, "armStay");
    assert_eq!(fields(&r)[5], ("forceArm", BodyValue::Bool(true)));
    assert_eq!(fields(&r)[3], ("nightArming", BodyValue::Bool(false)));
    let r = partitions::arm_away("p", &[]);
    assert_eq!(r.action, "armAway");
    let r = partitions::arm_night("p", &[ArmingOption::NoEntryDelay]);
    assert_eq!(r.action, "armStay");
    assert_eq!(fields(&r)[1], ("noEntryDelay", BodyValue::Bool(true)));
    assert_eq!(fields(&r)[3], ("nightArming", BodyValue::Bool(true)));
    let r = partitions::disarm("p");
    assert_eq!(r.action, "disarm");
    assert!(fields(&r).iter().all(|(_, v)| *v == BodyValue::Bool(false)));
}

#[test]
fn night_arming_added_once() {
    assert_eq!(
        partitions::arm_night_options(&[ArmingOption::SilentArming]),
        vec![ArmingOption::SilentArming, ArmingOption::NightArming]
    );
    assert_eq!(
        partitions::arm_night_options(&[ArmingOption::NightArming, ArmingOption::ForceArm]),
        vec![ArmingOption::NightArming, ArmingOption::ForceArm]
    );
    assert_eq!(partitions::arm_night_options(&[]), vec![ArmingOption::NightArming]);
}

#[test]
fn thermostat_mode_commands() {
    let cases = [
        (ThermostatMode::Off, 1),
        (ThermostatMode::Heat, 2),
        (ThermostatMode::Cool, 3),
        (ThermostatMode::Auto, 4),
        (ThermostatMode::AuxHeat, 5),
    ];
    for (mode, code) in cases {
        let r = thermostats::set_mode("t", mode).unwrap();
        assert_eq!(r.resource_type, ResourceType::Thermostat);
        assert_eq!(r.action, "setState");
        assert_eq!(
            fields(&r),
            vec![("statePollOnly", BodyValue::Bool(false)), ("state", BodyValue::Number(code))]
        );
        assert_eq!(ThermostatMode::from_code(code), mode);
    }
    let r = thermostats::set_mode("t", ThermostatMode::Unknown);
    assert!(matches!(r, Err(AlarmError::UnsupportedOperation(m))
        if m == "cannot set thermostat to unknown mode"));
}

#[test]
fn single_device_selection() {
    let resp = ApiResponse::Single(SingleDocument { data: resource("L1"), included: vec![] });
    assert_eq!(locks::select_lock(&resp, "L1").unwrap().id, "L1");
    let none = empty();
    assert!(matches!(locks::select_lock(&none, "9"), Err(AlarmError::UnknownDevice(m)) if m == "lock 9 not found"));
    assert!(matches!(garage_doors::select_garage_door(&none, "9"), Err(AlarmError::UnknownDevice(m)) if m == "garage door 9 not found"));
    assert!(matches!(lights::select_light(&none, "9"), Err(AlarmError::UnknownDevice(m)) if m == "light 9 not found"));
    assert!(matches!(sensors::select_sensor(&none, "9"), Err(AlarmError::UnknownDevice(m)) if m == "sensor 9 not found"));
    assert!(matches!(partitions::select_partition(&none, "9"), Err(AlarmError::UnknownDevice(m)) if m == "partition 9 not found"));
    assert!(matches!(thermostats::select_thermostat(&none, "9"), Err(AlarmError::UnknownDevice(m)) if m == "thermostat 9 not found"));
    assert!(matches!(systems::select_system(&none), Err(AlarmError::UnexpectedResponse(m)) if m == "empty system response"));
    let two = ApiResponse::Multi(MultiDocument { data: vec![resource("A"), resource("B")], included: vec![] });
    assert_eq!(sensors::select_sensor(&two, "x").unwrap().id, "A");
}

#[test]
fn system_ids_are_discovered() {
    let two = ApiResponse::Multi(MultiDocument { data: vec![resource("A"), resource("B")], included: vec![] });
    assert_eq!(systems::available_system_ids(&two).unwrap(), vec!["A", "B"]);
    assert!(matches!(systems::available_system_ids(&empty()),
        Err(AlarmError::AuthenticationFailed(m)) if m == "no systems found for this account"));
}

#[test]
fn failed_device_fetch_lists_nothing() {
    let ok: Result<Vec<u32>, AlarmError> = Ok(vec![3, 1, 2]);
    assert_eq!(listed_or_empty(ok), vec![3, 1, 2]);
    let failed: Result<Vec<u32>, AlarmError> = Err(AlarmError::SessionExpired);
    assert!(listed_or_empty(failed).is_empty());
}
