//! The plugin descriptor and the one decision it makes: what to register
//! with the host for each outcome of constructing the SDK client.

use crate::host::{Host, HostView};
use vstd::prelude::*;
use vstd::string::StringExecFns;

verus! {

/// Identifies the application to the Discord service.
pub type ClientID = i64;

/// Adds the Discord client to an engine: publishes the handle as a
/// main-thread resource and has its callbacks run on every tick.
pub struct DiscordPlugin(ClientID);

/// The text of the error record for a construction that failed with
/// `description`.
pub open spec fn failure_record(description: Seq<char>) -> Seq<char> {
    "Failed to initialize Discord client: "@ + description
}

/// The content of a construction outcome: the handle, or the failure's
/// description as text.
pub open spec fn outcome_view<C>(outcome: Result<C, String>) -> Result<C, Seq<char>> {
    match outcome {
        Ok(client) => Ok(client),
        Err(description) => Err(description@),
    }
}

/// The host after `outcome` was registered with it.
///
/// Success installs the handle: it replaces any earlier one, the poll system
/// is scheduled, and nothing is logged. Failure emits one record and leaves
/// slot and schedule as they were.
pub open spec fn registered<C>(host: HostView<C>, outcome: Result<C, Seq<char>>) -> HostView<C> {
    match outcome {
        Ok(client) => host.install(client),
        Err(description) => host.report(failure_record(description)),
    }
}

impl DiscordPlugin {
    /// The identifier this plugin was made with.
    pub closed spec fn id(&self) -> ClientID {
        self.0
    }

    /// A plugin for the application that `client_id` identifies.
    pub fn new(client_id: ClientID) -> (plugin: Self)
        ensures
            plugin.id() == client_id,
    {
        DiscordPlugin(client_id)
    }

    /// The identifier to construct the SDK client with.
    pub fn client_id(&self) -> (client_id: ClientID)
        ensures
            client_id == self.id(),
    {
        self.0
    }

    /// Registers `outcome`, the result of constructing the SDK client, with
    /// `host`.
    ///
    /// Never fails: a failed construction ends in one error record.
    pub fn register<C>(&self, host: &mut Host<C>, outcome: Result<C, String>)
        ensures
            final(host)@ == registered(old(host)@, outcome_view(outcome)),
    {
        match outcome {
            Ok(client) => {
                host.install(client);
            },
            Err(description) => {
                let record = String::from_str("Failed to initialize Discord client: ").concat(
                    description.as_str(),
                );
                host.report(record);
            },
        }
    }

    /// Constructs the SDK client and registers the outcome with `host`.
    ///
    /// `construct` stands for the SDK's constructor. It is called once, with
    /// this plugin's identifier, and whatever it returns is registered: the
    /// build itself never fails.
    pub fn build<C, F: FnOnce(ClientID) -> Result<C, String>>(
        &self,
        host: &mut Host<C>,
        construct: F,
    )
        requires
            construct.requires((self.id(),)),
        ensures
            exists|outcome: Result<C, String>|
                #[trigger] construct.ensures((self.id(),), outcome) && final(host)@ == registered(
                    old(host)@,
                    outcome_view(outcome),
                ),
    {
        let outcome = construct(self.0);
        self.register(host, outcome);
    }
}

} // verus!
