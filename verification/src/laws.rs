//! What holds of every registration and of every run of ticks, proved over
//! the hosts' mathematical content.

use crate::host::{HostView, Phase};
use crate::plugin::{failure_record, registered, DiscordPlugin};
use vstd::prelude::*;

verus! {

/// A host whose poll system is scheduled invokes callback processing once
/// on every tick: `ticks` ticks make exactly `ticks` invocations.
pub proof fn law_one_invocation_per_tick<C>(host: HostView<C>, ticks: nat)
    requires
        host.due() is Some,
    ensures
        host.invocations(ticks) == ticks,
    decreases ticks,
{
    if ticks > 0 {
        law_one_invocation_per_tick(host, (ticks - 1) as nat);
    }
}

/// A host without a scheduled poll system never invokes callback
/// processing, however many ticks pass.
pub proof fn law_no_invocation_without_poll<C>(host: HostView<C>, ticks: nat)
    requires
        host.due() is None,
    ensures
        host.invocations(ticks) == 0,
    decreases ticks,
{
    if ticks > 0 {
        law_no_invocation_without_poll(host, (ticks - 1) as nat);
    }
}

/// After a successful construction was registered, the host holds exactly
/// one handle, the one that was constructed; the poll system is scheduled
/// and invokes callback processing on that handle once per tick; nothing
/// was logged.
pub proof fn law_success_activates<C>(host: HostView<C>, client: C, ticks: nat)
    ensures
        registered(host, Ok(client)).handles() == 1,
        registered(host, Ok(client)).client == Some(client),
        registered(host, Ok(client)).polling,
        registered(host, Ok(client)).due() == Some(client),
        registered(host, Ok(client)).invocations(ticks) == ticks,
        registered(host, Ok(client)).log == host.log,
        registered(host, Ok(client)).phase() == Phase::Active,
        registered(host, Ok(client)).wf(),
{
    law_one_invocation_per_tick(registered(host, Ok(client)), ticks);
}

/// After a failed construction was registered with a host that held no
/// handle, the host still holds none, no poll system is scheduled and no
/// tick invokes callback processing; exactly one record was emitted, which
/// carries the failure's description.
pub proof fn law_failure_disables<C>(host: HostView<C>, description: Seq<char>, ticks: nat)
    requires
        host.wf(),
        host.client is None,
    ensures
        registered(host, Err(description)).handles() == 0,
        !registered(host, Err(description)).polling,
        registered(host, Err(description)).invocations(ticks) == 0,
        registered(host, Err(description)).log == host.log.push(failure_record(description)),
        registered(host, Err(description)).log.len() == host.log.len() + 1,
        registered(host, Err(description)).phase() == Phase::Disabled,
        registered(host, Err(description)).wf(),
{
    law_no_invocation_without_poll(registered(host, Err(description)), ticks);
}

/// A failed construction changes nothing but the log, whatever the host
/// held before: one record more, slot and schedule untouched.
pub proof fn law_failure_only_logs<C>(host: HostView<C>, description: Seq<char>)
    ensures
        registered(host, Err(description)).client == host.client,
        registered(host, Err(description)).polling == host.polling,
        registered(host, Err(description)).log.len() == host.log.len() + 1,
        registered(host, Err(description)).log.last() == failure_record(description),
        registered(host, Err(description)).log.drop_last() == host.log,
{
    assert(host.log.push(failure_record(description)).drop_last() =~= host.log);
}

/// Registration is defined for every host and every outcome, and settles
/// the integration: the host stays well formed, is never uninitialized
/// afterwards, and an active host stays active.
pub proof fn law_registration_settles<C>(host: HostView<C>, outcome: Result<C, Seq<char>>)
    requires
        host.wf(),
    ensures
        registered(host, outcome).wf(),
        registered(host, outcome).handles() <= 1,
        registered(host, outcome).phase() != Phase::Uninitialized,
        host.phase() == Phase::Active ==> registered(host, outcome).phase() == Phase::Active,
        outcome is Ok <==> registered(host, outcome).log == host.log,
{
    if outcome is Err {
        assert(registered(host, outcome).log.len() == host.log.len() + 1);
    }
}

/// Two builds on two fresh hosts do not touch each other: whatever the two
/// plugins' identifiers and whatever the other construction returned, each
/// host ends as its own outcome alone prescribes. A success leaves one
/// handle, a scheduled poll system and no record; a failure leaves no
/// handle, no poll system and one record.
pub proof fn law_builds_are_independent<C>(
    first: DiscordPlugin,
    second: DiscordPlugin,
    first_outcome: Result<C, Seq<char>>,
    second_outcome: Result<C, Seq<char>>,
)
    requires
        first.id() != second.id(),
    ensures
        fresh_build_follows_outcome(first_outcome),
        fresh_build_follows_outcome(second_outcome),
{
}

/// A fresh host, once `outcome` is registered, holds what that outcome
/// alone prescribes.
pub open spec fn fresh_build_follows_outcome<C>(outcome: Result<C, Seq<char>>) -> bool {
    let after = registered(HostView::<C>::empty(), outcome);
    match outcome {
        Ok(client) => {
            &&& after.client == Some(client)
            &&& after.handles() == 1
            &&& after.polling
            &&& after.log.len() == 0
            &&& after.phase() == Phase::Active
        },
        Err(description) => {
            &&& after.client is None
            &&& after.handles() == 0
            &&& !after.polling
            &&& after.log == seq![failure_record(description)]
            &&& after.phase() == Phase::Disabled
        },
    }
}

} // verus!
