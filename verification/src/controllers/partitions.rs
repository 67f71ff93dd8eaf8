//! Partition operations: arm, disarm, clear faults, fetch one.

use vstd::prelude::*;

use super::{is_not_found, not_found, poll_body, single_resource, CommandRequest};
use crate::error::AlarmError;
use crate::models::body::CommandBody;
use crate::models::device::ResourceType;
use crate::models::jsonapi::{ApiResponse, Resource};
use crate::models::partition::{arming_body, build_arming_body, ArmingOption, PartitionCommand};

verus! {

/// The resource of the partition `id` in the answer to its fetch.
pub fn select_partition<'a>(resp: &'a ApiResponse, id: &str) -> (r: Result<&'a Resource, AlarmError>)
    ensures
        resp.data_resources().len() > 0 ==> (r matches Ok(x) && *x == resp.data_resources()[0]),
        resp.data_resources().len() == 0 ==> (r matches Err(e) && is_not_found(e, "partition"@, id@)),
{
    single_resource(resp, not_found("partition", id))
}

/// A partition command with the arming body of `options`.
pub fn partition_command(id: &str, command: PartitionCommand, options: &[ArmingOption]) -> (r:
    CommandRequest)
    ensures
        r.is(ResourceType::Partition, id@, command.action(), arming_body(options@)),
{
    let body = build_arming_body(options);
    CommandRequest::new(ResourceType::Partition, id, command.api_action(), body)
}

/// Arm a partition in Stay mode.
pub fn arm_stay(id: &str, options: &[ArmingOption]) -> (r: CommandRequest)
    ensures
        r.is(ResourceType::Partition, id@, "armStay"@, arming_body(options@)),
{
    partition_command(id, PartitionCommand::ArmStay, options)
}

/// Arm a partition in Away mode.
pub fn arm_away(id: &str, options: &[ArmingOption]) -> (r: CommandRequest)
    ensures
        r.is(ResourceType::Partition, id@, "armAway"@, arming_body(options@)),
{
    partition_command(id, PartitionCommand::ArmAway, options)
}

/// The options of a night arming: those given, with night arming added
/// at the end unless it is among them.
pub open spec fn night_options(options: Seq<ArmingOption>) -> Seq<ArmingOption> {
    if options.contains(ArmingOption::NightArming) {
        options
    } else {
        options.push(ArmingOption::NightArming)
    }
}

/// The options given, with night arming added unless it is among them.
pub fn arm_night_options(options: &[ArmingOption]) -> (r: Vec<ArmingOption>)
    ensures
        r@ == night_options(options@),
{
    let mut opts: Vec<ArmingOption> = Vec::new();
    let mut present = false;
    let mut i: usize = 0;
    while i < options.len()
        invariant
            i <= options@.len(),
            opts@ == options@.take(i as int),
            present == options@.take(i as int).contains(ArmingOption::NightArming),
        decreases options.len() - i,
    {
        let ghost before = options@.take(i as int);
        assert(options@.take(i + 1) =~= before.push(options@[i as int]));
        if options[i] == ArmingOption::NightArming {
            assert(options@.take(i + 1)[i as int] == ArmingOption::NightArming);
            present = true;
        } else {
            proof {
                let next = options@.take(i + 1);
                assert forall|o: ArmingOption| next.contains(o) implies before.contains(o) || o
                    == options@[i as int] by {
                    let k = choose|k: int| 0 <= k < i + 1 && next[k] == o;
                    if k < i {
                        assert(before[k] == o);
                    }
                }
                if present {
                    let k = choose|k: int| 0 <= k < i && before[k] == ArmingOption::NightArming;
                    assert(next[k] == ArmingOption::NightArming);
                }
            }
        }
        opts.push(options[i]);
        i += 1;
    }
    assert(options@.take(options@.len() as int) =~= options@);
    if !present {
        opts.push(ArmingOption::NightArming);
    }
    opts
}

/// Arm a partition in Night mode (arm stay + night arming option).
pub fn arm_night(id: &str, options: &[ArmingOption]) -> (r: CommandRequest)
    ensures
        r.is(ResourceType::Partition, id@, "armStay"@, arming_body(night_options(options@))),
{
    let opts = arm_night_options(options);
    partition_command(id, PartitionCommand::ArmStay, opts.as_slice())
}

/// Disarm a partition.
pub fn disarm(id: &str) -> (r: CommandRequest)
    ensures
        r.is(ResourceType::Partition, id@, "disarm"@, arming_body(Seq::empty())),
{
    let none: Vec<ArmingOption> = Vec::new();
    assert(none@ =~= Seq::<ArmingOption>::empty());
    partition_command(id, PartitionCommand::Disarm, none.as_slice())
}

/// Clear faults on a partition.
pub fn clear_faults(id: &str) -> (r: CommandRequest)
    ensures
        r.is(ResourceType::Partition, id@, "clearIssues"@, poll_body()),
{
    CommandRequest::new(ResourceType::Partition, id, "clearIssues", CommandBody::state_poll_only())
}

/// Night arming always asks for night arming, and asking twice changes nothing.
pub proof fn law_night_arming_included(options: Seq<ArmingOption>)
    ensures
        night_options(options).contains(ArmingOption::NightArming),
        night_options(night_options(options)) == night_options(options),
        forall|o: ArmingOption| options.contains(o) ==> night_options(options).contains(o),
{
    if !options.contains(ArmingOption::NightArming) {
        let n = options.push(ArmingOption::NightArming);
        assert(n[options.len() as int] == ArmingOption::NightArming);
        assert forall|o: ArmingOption| options.contains(o) implies n.contains(o) by {
            let k = choose|k: int| 0 <= k < options.len() && options[k] == o;
            assert(n[k] == o);
        }
    }
}

} // verus!
