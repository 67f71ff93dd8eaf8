//! Partition (alarm panel) model.

use vstd::prelude::*;

use super::body::{BodyValue, CommandBody};
use super::device::{device_name, display_name, flag, opt_text, Device, ResourceType};
use super::jsonapi::{
    distinct_keys, identifier_ids, law_related_ids_of_own_key, related_ids_of, Entries,
    Relationship, Resource,
};
use crate::text::{text_eq, texts};

verus! {

/// Alarm panel partition state.
#[derive(Debug, Clone, Copy, PartialEq, Eq, Structural)]
pub enum PartitionState {
    Unknown,
    Disarmed,
    ArmedStay,
    ArmedAway,
    ArmedNight,
    Hidden,
}

impl PartitionState {
    /// The state that a numeric code of the API stands for.
    pub open spec fn of_code(code: u32) -> PartitionState {
        if code == 1 {
            PartitionState::Disarmed
        } else if code == 2 {
            PartitionState::ArmedStay
        } else if code == 3 {
            PartitionState::ArmedAway
        } else if code == 4 {
            PartitionState::ArmedNight
        } else if code == 5 {
            PartitionState::Hidden
        } else {
            PartitionState::Unknown
        }
    }

    /// The states in which the panel is armed.
    pub open spec fn armed(self) -> bool {
        ||| self == PartitionState::ArmedStay
        ||| self == PartitionState::ArmedAway
        ||| self == PartitionState::ArmedNight
        ||| self == PartitionState::Hidden
    }

    /// The name under which the state is displayed.
    pub open spec fn label(self) -> Seq<char> {
        match self {
            PartitionState::Unknown => "Unknown"@,
            PartitionState::Disarmed => "Disarmed"@,
            PartitionState::ArmedStay => "Armed Stay"@,
            PartitionState::ArmedAway => "Armed Away"@,
            PartitionState::ArmedNight => "Armed Night"@,
            PartitionState::Hidden => "Hidden"@,
        }
    }

    pub fn from_code(code: u32) -> (s: Self)
        ensures
            s == Self::of_code(code),
    {
        match code {
            1 => PartitionState::Disarmed,
            2 => PartitionState::ArmedStay,
            3 => PartitionState::ArmedAway,
            4 => PartitionState::ArmedNight,
            5 => PartitionState::Hidden,
            _ => PartitionState::Unknown,
        }
    }

    pub fn is_armed(&self) -> (r: bool)
        ensures
            r == self.armed(),
    {
        match self {
            PartitionState::ArmedStay | PartitionState::ArmedAway | PartitionState::ArmedNight
            | PartitionState::Hidden => true,
            _ => false,
        }
    }

    /// The name under which the state is displayed.
    #[allow(clippy::inherent_to_string)]
    pub fn to_string(&self) -> (r: String)
        ensures
            r@ == self.label(),
    {
        let s = match self {
            PartitionState::Unknown => "Unknown",
            PartitionState::Disarmed => "Disarmed",
            PartitionState::ArmedStay => "Armed Stay",
            PartitionState::ArmedAway => "Armed Away",
            PartitionState::ArmedNight => "Armed Night",
            PartitionState::Hidden => "Hidden",
        };
        String::from_str(s)
    }
}

/// Extended arming options.
#[derive(Debug, Clone, Copy, PartialEq, Eq, Structural)]
pub enum ArmingOption {
    BypassSensors,
    NoEntryDelay,
    SilentArming,
    NightArming,
    SelectivelyBypassSensors,
    ForceArm,
}

impl ArmingOption {
    /// The key of the option in the arming body.
    pub open spec fn key(self) -> Seq<char> {
        match self {
            ArmingOption::BypassSensors => "forceBypass"@,
            ArmingOption::NoEntryDelay => "noEntryDelay"@,
            ArmingOption::SilentArming => "silentArming"@,
            ArmingOption::NightArming => "nightArming"@,
            ArmingOption::SelectivelyBypassSensors => "selectiveBypass"@,
            ArmingOption::ForceArm => "forceArm"@,
        }
    }

    pub fn api_key(&self) -> (r: &'static str)
        ensures
            r@ == self.key(),
    {
        match self {
            ArmingOption::BypassSensors => "forceBypass",
            ArmingOption::NoEntryDelay => "noEntryDelay",
            ArmingOption::SilentArming => "silentArming",
            ArmingOption::NightArming => "nightArming",
            ArmingOption::SelectivelyBypassSensors => "selectiveBypass",
            ArmingOption::ForceArm => "forceArm",
        }
    }
}

/// Partition command to send to the API.
#[derive(Debug, Clone, Copy, PartialEq, Eq, Structural)]
pub enum PartitionCommand {
    Disarm,
    ArmStay,
    ArmAway,
}

impl PartitionCommand {
    /// The action of the command in the API path.
    pub open spec fn action(self) -> Seq<char> {
        match self {
            PartitionCommand::Disarm => "disarm"@,
            PartitionCommand::ArmStay => "armStay"@,
            PartitionCommand::ArmAway => "armAway"@,
        }
    }

    pub fn api_action(&self) -> (r: &'static str)
        ensures
            r@ == self.action(),
    {
        match self {
            PartitionCommand::Disarm => "disarm",
            PartitionCommand::ArmStay => "armStay",
            PartitionCommand::ArmAway => "armAway",
        }
    }
}

/// Alarm.com partition attributes.
#[derive(Debug, Clone, Default)]
pub struct PartitionAttributes {
    pub state: u32,
    pub desired_state: u32,
    pub description: Option<String>,
    pub has_permission: Option<bool>,
    pub partition_id: Option<String>,
    pub has_active_alarm: Option<bool>,
    pub needs_clear_issues_prompt: Option<bool>,
    pub has_open_bypassable_sensors: Option<bool>,
    pub has_sensor_in_trouble_condition: Option<bool>,
    pub can_bypass_sensor_when_armed: Option<bool>,
}

/// A partition (alarm panel zone).
#[derive(Debug, Clone)]
pub struct Partition {
    pub id: String,
    pub name: String,
    pub state: PartitionState,
    pub desired_state: PartitionState,
    pub has_active_alarm: bool,
    pub attributes: PartitionAttributes,
    /// IDs of child devices (sensors, etc.) in this partition.
    pub child_device_ids: Vec<String>,
}

/// The IDs of the child devices named by the first `n` relationships: for
/// each relationship but the one to the system, in order, the IDs related
/// under its key.
pub open spec fn child_ids_upto(rels: Entries, n: int) -> Seq<Seq<char>>
    decreases n,
{
    if n <= 0 {
        Seq::empty()
    } else {
        let key = rels[n - 1].0;
        child_ids_upto(rels, n - 1) + if key == "system"@ {
            Seq::empty()
        } else {
            related_ids_of(rels, key)
        }
    }
}

/// The IDs of a partition's child devices.
pub open spec fn child_ids(rels: Entries) -> Seq<Seq<char>> {
    child_ids_upto(rels, rels.len() as int)
}

impl Partition {
    /// Builds the partition from its resource and the attributes read from it.
    pub fn from_resource(resource: &Resource, attrs: PartitionAttributes) -> (p: Self)
        ensures
            p.id@ == resource.id@,
            p.name@ == display_name(opt_text(attrs.description), "Partition"@, resource.id@),
            p.state == PartitionState::of_code(attrs.state),
            p.desired_state == PartitionState::of_code(attrs.desired_state),
            p.has_active_alarm == flag(attrs.has_active_alarm),
            texts(p.child_device_ids@) == child_ids(resource.relationships@),
            texts(p.child_device_ids@) == own_child_ids(resource.relationships@),
            p.attributes == attrs,
    {
        let name = device_name(&attrs.description, "Partition", resource.id.as_str());
        let rels = resource.relationships.entries();
        let ghost view = resource.relationships@;
        let mut child_ids: Vec<String> = Vec::new();
        let mut i: usize = 0;
        while i < rels.len()
            invariant
                rels@.map_values(|e: (String, Relationship)| (e.0@, e.1)) == view,
                view == resource.relationships@,
                i <= rels@.len(),
                texts(child_ids@) == child_ids_upto(view, i as int),
            decreases rels.len() - i,
        {
            let key = rels[i].0.as_str();
            assert(view[i as int] == (rels@[i as int].0@, rels@[i as int].1));
            let ghost before = texts(child_ids@);
            if !text_eq(key, "system") {
                let ids = resource.related_ids(key);
                let mut j: usize = 0;
                while j < ids.len()
                    invariant
                        j <= ids@.len(),
                        texts(child_ids@) == before + texts(ids@).take(j as int),
                    decreases ids.len() - j,
                {
                    let ghost prev = child_ids@;
                    child_ids.push(ids[j].clone());
                    assert(texts(child_ids@) =~= texts(prev).push(ids@[j as int]@));
                    assert(texts(ids@).take(j + 1) =~= texts(ids@).take(j as int).push(
                        ids@[j as int]@,
                    ));
                    assert(texts(child_ids@) =~= before + texts(ids@).take(j + 1));
                    j += 1;
                }
                assert(texts(ids@).take(ids@.len() as int) =~= texts(ids@));
            } else {
                assert(before + Seq::<Seq<char>>::empty() =~= before);
            }
            i += 1;
        }
        proof {
            law_child_ids_are_own_relationships(view, view.len() as int);
        }
        let state = PartitionState::from_code(attrs.state);
        let desired_state = PartitionState::from_code(attrs.desired_state);
        let has_active_alarm = match attrs.has_active_alarm {
            Some(b) => b,
            None => false,
        };
        Partition {
            id: resource.id.clone(),
            name,
            state,
            desired_state,
            has_active_alarm,
            attributes: attrs,
            child_device_ids: child_ids,
        }
    }
}

impl Device for Partition {
    fn id(&self) -> (r: &str)
        ensures
            r@ == self.id@,
    {
        self.id.as_str()
    }

    fn name(&self) -> (r: &str)
        ensures
            r@ == self.name@,
    {
        self.name.as_str()
    }

    fn resource_type() -> (r: ResourceType)
        ensures
            r == ResourceType::Partition,
    {
        ResourceType::Partition
    }
}

/// The IDs named by the first `n` relationships themselves, in order, the
/// one to the system left out.
pub open spec fn own_child_ids_upto(rels: Entries, n: int) -> Seq<Seq<char>>
    decreases n,
{
    if n <= 0 {
        Seq::empty()
    } else {
        own_child_ids_upto(rels, n - 1) + if rels[n - 1].0 == "system"@ {
            Seq::empty()
        } else {
            identifier_ids(rels[n - 1].1.data)
        }
    }
}

/// The IDs of a partition's child devices, read off its relationships.
pub open spec fn own_child_ids(rels: Entries) -> Seq<Seq<char>> {
    own_child_ids_upto(rels, rels.len() as int)
}

/// When no two relationships share a key (as in the JSON object they come
/// from), a partition's child devices are those that its relationships
/// name, in order, all but the system.
pub proof fn law_child_ids_are_own_relationships(rels: Entries, n: int)
    requires
        distinct_keys(rels),
        0 <= n <= rels.len(),
    ensures
        child_ids_upto(rels, n) == own_child_ids_upto(rels, n),
    decreases n,
{
    if n > 0 {
        law_child_ids_are_own_relationships(rels, n - 1);
        law_related_ids_of_own_key(rels, n - 1);
    }
}

/// Whether some option in `options` is turned on by `opt`.
pub open spec fn selects(options: Seq<ArmingOption>, opt: ArmingOption) -> bool {
    options.contains(opt)
}

fn option_selected(options: &[ArmingOption], opt: ArmingOption) -> (r: bool)
    ensures
        r == selects(options@, opt),
{
    let mut i: usize = 0;
    while i < options.len()
        invariant
            i <= options@.len(),
            forall|j: int| 0 <= j < i ==> options@[j] != opt,
        decreases options.len() - i,
    {
        if options[i] == opt {
            assert(options@[i as int] == opt);
            return true;
        }
        i += 1;
    }
    false
}

/// The arming body: every flag false but those of the options given.
pub open spec fn arming_body(options: Seq<ArmingOption>) -> Seq<(Seq<char>, BodyValue)> {
    seq![
        ("forceBypass"@, BodyValue::Bool(selects(options, ArmingOption::BypassSensors))),
        ("noEntryDelay"@, BodyValue::Bool(selects(options, ArmingOption::NoEntryDelay))),
        ("silentArming"@, BodyValue::Bool(selects(options, ArmingOption::SilentArming))),
        ("nightArming"@, BodyValue::Bool(selects(options, ArmingOption::NightArming))),
        ("selectiveBypass"@, BodyValue::Bool(selects(options, ArmingOption::SelectivelyBypassSensors))),
        ("forceArm"@, BodyValue::Bool(selects(options, ArmingOption::ForceArm))),
        ("statePollOnly"@, BodyValue::Bool(false)),
    ]
}

/// Build the JSON body for an arm/disarm command.
pub fn build_arming_body(options: &[ArmingOption]) -> (b: CommandBody)
    ensures
        b@ == arming_body(options@),
{
    let mut b = CommandBody::new();
    b.push("forceBypass", BodyValue::Bool(option_selected(options, ArmingOption::BypassSensors)));
    b.push("noEntryDelay", BodyValue::Bool(option_selected(options, ArmingOption::NoEntryDelay)));
    b.push("silentArming", BodyValue::Bool(option_selected(options, ArmingOption::SilentArming)));
    b.push("nightArming", BodyValue::Bool(option_selected(options, ArmingOption::NightArming)));
    b.push(
        "selectiveBypass",
        BodyValue::Bool(option_selected(options, ArmingOption::SelectivelyBypassSensors)),
    );
    b.push("forceArm", BodyValue::Bool(option_selected(options, ArmingOption::ForceArm)));
    b.push("statePollOnly", BodyValue::Bool(false));
    assert(b@ =~= arming_body(options@));
    b
}

/// The keys of the arming body, in order.
pub open spec fn arming_keys() -> Seq<Seq<char>> {
    seq![
        "forceBypass"@,
        "noEntryDelay"@,
        "silentArming"@,
        "nightArming"@,
        "selectiveBypass"@,
        "forceArm"@,
        "statePollOnly"@,
    ]
}

/// Each option given turns on exactly the field that its API key names, and
/// the field `statePollOnly` is always off.
pub proof fn law_arming_body_sets_option_keys(options: Seq<ArmingOption>, opt: ArmingOption)
    ensures
        arming_body(options).len() == 7,
        forall|i: int| 0 <= i < 7 ==> (#[trigger] arming_body(options)[i]).0 == arming_keys()[i],
        exists|i: int|
            0 <= i < 6 && arming_body(options)[i].0 == opt.key() && arming_body(options)[i].1
                == BodyValue::Bool(selects(options, opt)),
        arming_body(options)[6] == ("statePollOnly"@, BodyValue::Bool(false)),
{
    let b = arming_body(options);
    match opt {
        ArmingOption::BypassSensors => assert(b[0].0 == opt.key()),
        ArmingOption::NoEntryDelay => assert(b[1].0 == opt.key()),
        ArmingOption::SilentArming => assert(b[2].0 == opt.key()),
        ArmingOption::NightArming => assert(b[3].0 == opt.key()),
        ArmingOption::SelectivelyBypassSensors => assert(b[4].0 == opt.key()),
        ArmingOption::ForceArm => assert(b[5].0 == opt.key()),
    }
}

/// A partition displays the armed state that the API reports under that
/// state's own name: code 1 is "Disarmed", 2 "Armed Stay", 3 "Armed Away",
/// 4 "Armed Night", 5 "Hidden", any other "Unknown"; no two states share a name.
pub proof fn law_partition_state_names(code: u32, a: PartitionState, b: PartitionState)
    ensures
        code == 1 ==> PartitionState::of_code(code).label() == "Disarmed"@,
        code == 2 ==> PartitionState::of_code(code).label() == "Armed Stay"@,
        code == 3 ==> PartitionState::of_code(code).label() == "Armed Away"@,
        code == 4 ==> PartitionState::of_code(code).label() == "Armed Night"@,
        code == 5 ==> PartitionState::of_code(code).label() == "Hidden"@,
        (code != 1
            && code != 2
            && code != 3
            && code != 4
            && code != 5) ==> PartitionState::of_code(code).label() == "Unknown"@,
        a.label() == b.label() ==> a == b,
{
    reveal_strlit("Unknown");
    reveal_strlit("Disarmed");
    reveal_strlit("Armed Stay");
    reveal_strlit("Armed Away");
    reveal_strlit("Armed Night");
    reveal_strlit("Hidden");
    assert("Unknown"@.len() == 7);
    assert("Disarmed"@.len() == 8);
    assert("Armed Stay"@.len() == 10);
    assert("Armed Away"@.len() == 10);
    assert("Armed Night"@.len() == 11);
    assert("Hidden"@.len() == 6);
    assert("Armed Stay"@[6] != "Armed Away"@[6]);
}

/// Each arming option sets its own key of the arming body, and no two
/// options share a key.
pub proof fn law_arming_option_keys(a: ArmingOption, b: ArmingOption)
    ensures
        ArmingOption::BypassSensors.key() == "forceBypass"@,
        ArmingOption::NoEntryDelay.key() == "noEntryDelay"@,
        ArmingOption::SilentArming.key() == "silentArming"@,
        ArmingOption::NightArming.key() == "nightArming"@,
        ArmingOption::SelectivelyBypassSensors.key() == "selectiveBypass"@,
        ArmingOption::ForceArm.key() == "forceArm"@,
        a.key() == b.key() ==> a == b,
{
    reveal_strlit("forceBypass");
    reveal_strlit("noEntryDelay");
    reveal_strlit("silentArming");
    reveal_strlit("nightArming");
    reveal_strlit("selectiveBypass");
    reveal_strlit("forceArm");
    assert("forceBypass"@.len() == 11);
    assert("noEntryDelay"@.len() == 12);
    assert("silentArming"@.len() == 12);
    assert("nightArming"@.len() == 11);
    assert("selectiveBypass"@.len() == 15);
    assert("forceArm"@.len() == 8);
    assert("forceBypass"@[0] != "nightArming"@[0]);
    assert("noEntryDelay"@[0] != "silentArming"@[0]);
}

/// Each partition command addresses its own action: "disarm", "armStay",
/// "armAway".
pub proof fn law_partition_command_actions(a: PartitionCommand, b: PartitionCommand)
    ensures
        PartitionCommand::Disarm.action() == "disarm"@,
        PartitionCommand::ArmStay.action() == "armStay"@,
        PartitionCommand::ArmAway.action() == "armAway"@,
        a.action() == b.action() ==> a == b,
{
    reveal_strlit("disarm");
    reveal_strlit("armStay");
    reveal_strlit("armAway");
    assert("disarm"@.len() == 6);
    assert("armStay"@.len() == 7);
    assert("armAway"@.len() == 7);
    assert("armStay"@[3] != "armAway"@[3]);
}

} // verus!
