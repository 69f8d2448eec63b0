//! The pairing agent that turns every pairing request down.
use vstd::prelude::*;

verus! {

/// The object path of the agent.
pub const AGENT_PATH: &'static str = "/org/bluez/bitchat/agent";

/// The interface of the agent.
pub const AGENT_INTERFACE: &'static str = "org.bluez.Agent1";

/// The bus name of the Bluetooth daemon.
pub const DAEMON_NAME: &'static str = "org.bluez";

/// The object path of the daemon's agent manager.
pub const DAEMON_PATH: &'static str = "/org/bluez";

/// The interface of the daemon's agent manager.
pub const AGENT_MANAGER_INTERFACE: &'static str = "org.bluez.AgentManager1";

/// The agent manager's method that registers an agent.
pub const REGISTER_AGENT: &'static str = "RegisterAgent";

/// The agent manager's method that makes an agent the default one.
pub const REQUEST_DEFAULT_AGENT: &'static str = "RequestDefaultAgent";

/// How long a call of the agent manager may take, in seconds.
pub const CALL_TIMEOUT_SECS: u64 = 5;

/// What the daemon may ask of the agent.
#[derive(Debug, Clone, Copy, PartialEq, Eq, Structural)]
pub enum AgentRequest {
    Release,
    RequestPinCode,
    DisplayPinCode,
    RequestPasskey,
    DisplayPasskey,
    RequestConfirmation,
    AuthorizeService,
    Cancel,
}

impl AgentRequest {
    /// The name of the method.
    pub open spec fn spec_member(self) -> &'static str {
        match self {
            AgentRequest::Release => "Release",
            AgentRequest::RequestPinCode => "RequestPinCode",
            AgentRequest::DisplayPinCode => "DisplayPinCode",
            AgentRequest::RequestPasskey => "RequestPasskey",
            AgentRequest::DisplayPasskey => "DisplayPasskey",
            AgentRequest::RequestConfirmation => "RequestConfirmation",
            AgentRequest::AuthorizeService => "AuthorizeService",
            AgentRequest::Cancel => "Cancel",
        }
    }

    /// The names of the method's arguments.
    pub open spec fn spec_inputs(self) -> Seq<&'static str> {
        match self {
            AgentRequest::Release => seq![],
            AgentRequest::RequestPinCode => seq!["device"],
            AgentRequest::DisplayPinCode => seq!["device", "pincode"],
            AgentRequest::RequestPasskey => seq!["device"],
            AgentRequest::DisplayPasskey => seq!["device", "passkey", "entered"],
            AgentRequest::RequestConfirmation => seq!["device", "passkey"],
            AgentRequest::AuthorizeService => seq!["device", "uuid"],
            AgentRequest::Cancel => seq![],
        }
    }

    /// The names of the method's results.
    pub open spec fn spec_outputs(self) -> Seq<&'static str> {
        match self {
            AgentRequest::RequestPinCode => seq!["pin"],
            AgentRequest::RequestPasskey => seq!["passkey"],
            _ => seq![],
        }
    }

    /// Whether granting the request would pair with the device or give it access.
    pub open spec fn asks_consent(self) -> bool {
        ||| self == AgentRequest::RequestPinCode
        ||| self == AgentRequest::RequestPasskey
        ||| self == AgentRequest::RequestConfirmation
        ||| self == AgentRequest::AuthorizeService
    }

    /// The methods that the agent exports.
    pub open spec fn spec_exported() -> Seq<AgentRequest> {
        seq![
            AgentRequest::Release,
            AgentRequest::RequestPinCode,
            AgentRequest::DisplayPinCode,
            AgentRequest::RequestPasskey,
            AgentRequest::DisplayPasskey,
            AgentRequest::RequestConfirmation,
            AgentRequest::AuthorizeService,
            AgentRequest::Cancel,
        ]
    }

    /// Returns the methods that the agent exports.
    pub fn exported() -> (requests: Vec<AgentRequest>)
        ensures
            requests@ == Self::spec_exported(),
    {
        vec![
            AgentRequest::Release,
            AgentRequest::RequestPinCode,
            AgentRequest::DisplayPinCode,
            AgentRequest::RequestPasskey,
            AgentRequest::DisplayPasskey,
            AgentRequest::RequestConfirmation,
            AgentRequest::AuthorizeService,
            AgentRequest::Cancel,
        ]
    }

    /// Returns the name of the method.
    pub fn member(self) -> (name: &'static str)
        ensures
            name == self.spec_member(),
    {
        match self {
            AgentRequest::Release => "Release",
            AgentRequest::RequestPinCode => "RequestPinCode",
            AgentRequest::DisplayPinCode => "DisplayPinCode",
            AgentRequest::RequestPasskey => "RequestPasskey",
            AgentRequest::DisplayPasskey => "DisplayPasskey",
            AgentRequest::RequestConfirmation => "RequestConfirmation",
            AgentRequest::AuthorizeService => "AuthorizeService",
            AgentRequest::Cancel => "Cancel",
        }
    }

    /// Returns the names of the method's arguments.
    pub fn inputs(self) -> (names: Vec<&'static str>)
        ensures
            names@ == self.spec_inputs(),
    {
        match self {
            AgentRequest::Release => Vec::new(),
            AgentRequest::RequestPinCode => vec!["device"],
            AgentRequest::DisplayPinCode => vec!["device", "pincode"],
            AgentRequest::RequestPasskey => vec!["device"],
            AgentRequest::DisplayPasskey => vec!["device", "passkey", "entered"],
            AgentRequest::RequestConfirmation => vec!["device", "passkey"],
            AgentRequest::AuthorizeService => vec!["device", "uuid"],
            AgentRequest::Cancel => Vec::new(),
        }
    }

    /// Returns the names of the method's results.
    pub fn outputs(self) -> (names: Vec<&'static str>)
        ensures
            names@ == self.spec_outputs(),
    {
        match self {
            AgentRequest::RequestPinCode => vec!["pin"],
            AgentRequest::RequestPasskey => vec!["passkey"],
            _ => Vec::new(),
        }
    }

    /// Answers the request: what asks for consent is refused with this text, and what only
    /// tells something is acknowledged.
    pub fn reply(self) -> (reply: Result<(), &'static str>)
        ensures
            reply == (if self.asks_consent() {
                Err::<(), &'static str>("Rejected by BitChat agent")
            } else {
                Ok(())
            }),
            self is RequestPinCode || self is RequestPasskey || self is RequestConfirmation
                || self is AuthorizeService <==> reply is Err,
            reply matches Err(text) ==> text@ == "Rejected by BitChat agent"@,
    {
        match self {
            AgentRequest::RequestPinCode
            | AgentRequest::RequestPasskey
            | AgentRequest::RequestConfirmation
            | AgentRequest::AuthorizeService => Err("Rejected by BitChat agent"),
            _ => Ok(()),
        }
    }
}

/// The next call that the agent's thread asks for.
#[derive(Debug, Clone, Copy, PartialEq, Eq)]
pub enum AgentStep {
    /// Connect to the system bus.
    Connect,
    /// Export the agent at this path under this interface.
    Export(&'static str, &'static str),
    /// Register the agent at this path with this capability.
    RegisterAgent(&'static str, &'static str),
    /// Make the agent at this path the default one.
    RequestDefaultAgent(&'static str),
    /// Serve incoming requests.
    Serve,
    /// Nothing: the thread ends.
    Stopped,
}

impl AgentStep {
    /// The step after this one. Only a missing bus keeps the agent from serving: it serves
    /// whether or not the daemon accepts it.
    pub open spec fn next(self, succeeded: bool) -> AgentStep {
        match self {
            AgentStep::Connect => if succeeded {
                AgentStep::Export(AGENT_PATH, AGENT_INTERFACE)
            } else {
                AgentStep::Stopped
            },
            AgentStep::Export(path, _) => AgentStep::RegisterAgent(path, "NoInputNoOutput"),
            AgentStep::RegisterAgent(path, _) => AgentStep::RequestDefaultAgent(path),
            AgentStep::RequestDefaultAgent(_) => AgentStep::Serve,
            AgentStep::Serve => AgentStep::Stopped,
            AgentStep::Stopped => AgentStep::Stopped,
        }
    }

    /// Where a series of outcomes leads to from this step.
    pub open spec fn after(self, outcomes: Seq<bool>) -> AgentStep
        decreases outcomes.len(),
    {
        if outcomes.len() == 0 {
            self
        } else {
            self.next(outcomes[0]).after(outcomes.drop_first())
        }
    }

    /// Takes whether this step's call succeeded and returns the step after it.
    pub fn advance(self, succeeded: bool) -> (next: AgentStep)
        ensures
            next == self.next(succeeded),
            match self {
                AgentStep::Connect => if succeeded {
                    next == AgentStep::Export(AGENT_PATH, AGENT_INTERFACE)
                } else {
                    next is Stopped
                },
                AgentStep::Export(path, _) => next == AgentStep::RegisterAgent(
                    path,
                    "NoInputNoOutput",
                ),
                AgentStep::RegisterAgent(path, _) => next == AgentStep::RequestDefaultAgent(path),
                AgentStep::RequestDefaultAgent(_) => next is Serve,
                AgentStep::Serve => next is Stopped,
                AgentStep::Stopped => next is Stopped,
            },
    {
        match self {
            AgentStep::Connect => if succeeded {
                AgentStep::Export(AGENT_PATH, AGENT_INTERFACE)
            } else {
                AgentStep::Stopped
            },
            AgentStep::Export(path, _) => AgentStep::RegisterAgent(path, "NoInputNoOutput"),
            AgentStep::RegisterAgent(path, _) => AgentStep::RequestDefaultAgent(path),
            AgentStep::RequestDefaultAgent(_) => AgentStep::Serve,
            AgentStep::Serve => AgentStep::Stopped,
            AgentStep::Stopped => AgentStep::Stopped,
        }
    }
}

/// With a bus the agent is exported, registered without input or output and made the
/// default one, at one and the same path, and then serves, whatever the daemon answers;
/// without a bus it stops at once.
pub proof fn agent_serves_once_connected(outcomes: Seq<bool>)
    requires
        outcomes.len() == 4,
    ensures
        AgentStep::Connect.after(outcomes) == (if outcomes[0] {
            AgentStep::Serve
        } else {
            AgentStep::Stopped
        }),
        outcomes[0] ==> AgentStep::Connect.after(outcomes.take(2)) == AgentStep::RegisterAgent(
            AGENT_PATH,
            "NoInputNoOutput",
        ),
        outcomes[0] ==> AgentStep::Connect.after(outcomes.take(3))
            == AgentStep::RequestDefaultAgent(AGENT_PATH),
{
    reveal_with_fuel(AgentStep::after, 5);
}

/// Step by step: only connecting can end the agent early, the path stays the one it was
/// exported at, and the daemon's answers make no difference.
pub proof fn agent_goes_step_by_step(
    path: &'static str,
    label: &'static str,
    first: bool,
    second: bool,
)
    ensures
        AgentStep::Connect.next(true) == AgentStep::Export(AGENT_PATH, AGENT_INTERFACE),
        AgentStep::Connect.next(false) is Stopped,
        AgentStep::Export(path, label).next(first) matches AgentStep::RegisterAgent(at, capability)
            && at == path && capability@ == "NoInputNoOutput"@,
        AgentStep::RegisterAgent(path, label).next(first) matches AgentStep::RequestDefaultAgent(
            at,
        ) && at == path,
        AgentStep::RequestDefaultAgent(path).next(first) is Serve,
        AgentStep::Serve.next(first) is Stopped,
        AgentStep::Stopped.next(first) is Stopped,
        AgentStep::Export(path, label).next(first) == AgentStep::Export(path, label).next(second),
        AgentStep::RegisterAgent(path, label).next(first) == AgentStep::RegisterAgent(
            path,
            label,
        ).next(second),
{
}

/// A request is refused exactly if it would hand out a value, confirm a passkey or authorize a
/// service; what only displays something or ends the dialogue is acknowledged. Every request
/// but the two that end it is about a device.
pub proof fn agent_refuses_to_consent(request: AgentRequest)
    ensures
        request.spec_outputs().len() > 0 ==> request.asks_consent(),
        request is RequestConfirmation || request is AuthorizeService ==> request.asks_consent(),
        request is Release || request is Cancel || request is DisplayPinCode
            || request is DisplayPasskey ==> !request.asks_consent(),
        request is RequestPinCode || request is RequestPasskey ==> request.spec_outputs().len()
            == 1,
        request is Release || request is Cancel <==> request.spec_inputs().len() == 0,
        request.spec_inputs().len() > 0 ==> request.spec_inputs()[0]@ == "device"@,
{
}

/// The names by which the agent and the daemon know each other.
pub proof fn agent_names()
    ensures
        AGENT_PATH@ == "/org/bluez/bitchat/agent"@,
        AGENT_INTERFACE@ == "org.bluez.Agent1"@,
        DAEMON_NAME@ == "org.bluez"@,
        DAEMON_PATH@ == "/org/bluez"@,
        AGENT_MANAGER_INTERFACE@ == "org.bluez.AgentManager1"@,
        REGISTER_AGENT@ == "RegisterAgent"@,
        REQUEST_DEFAULT_AGENT@ == "RequestDefaultAgent"@,
        CALL_TIMEOUT_SECS == 5,
        AgentRequest::Release.spec_member()@ == "Release"@,
        AgentRequest::RequestPinCode.spec_member()@ == "RequestPinCode"@,
        AgentRequest::DisplayPinCode.spec_member()@ == "DisplayPinCode"@,
        AgentRequest::RequestPasskey.spec_member()@ == "RequestPasskey"@,
        AgentRequest::DisplayPasskey.spec_member()@ == "DisplayPasskey"@,
        AgentRequest::RequestConfirmation.spec_member()@ == "RequestConfirmation"@,
        AgentRequest::AuthorizeService.spec_member()@ == "AuthorizeService"@,
        AgentRequest::Cancel.spec_member()@ == "Cancel"@,
{
}

/// The arguments and results of the methods, as the daemon passes them.
pub proof fn agent_signatures()
    ensures
        AgentRequest::RequestPinCode.spec_inputs() == seq!["device"],
        AgentRequest::RequestPinCode.spec_outputs() == seq!["pin"],
        AgentRequest::DisplayPinCode.spec_inputs() == seq!["device", "pincode"],
        AgentRequest::RequestPasskey.spec_inputs() == seq!["device"],
        AgentRequest::RequestPasskey.spec_outputs() == seq!["passkey"],
        AgentRequest::DisplayPasskey.spec_inputs() == seq!["device", "passkey", "entered"],
        AgentRequest::RequestConfirmation.spec_inputs() == seq!["device", "passkey"],
        AgentRequest::AuthorizeService.spec_inputs() == seq!["device", "uuid"],
        forall|request: AgentRequest|
            !(request is RequestPinCode) && !(request is RequestPasskey) ==> (
            #[trigger] request.spec_outputs()).len() == 0,
{
}

/// Every request is exported, so each one that asks for consent reaches a refusal.
pub proof fn agent_exports_every_request(request: AgentRequest)
    ensures
        AgentRequest::spec_exported().contains(request),
{
    let exported = AgentRequest::spec_exported();
    let i: int = match request {
        AgentRequest::Release => 0,
        AgentRequest::RequestPinCode => 1,
        AgentRequest::DisplayPinCode => 2,
        AgentRequest::RequestPasskey => 3,
        AgentRequest::DisplayPasskey => 4,
        AgentRequest::RequestConfirmation => 5,
        AgentRequest::AuthorizeService => 6,
        AgentRequest::Cancel => 7,
    };
    assert(exported[i] == request);
}

/// Different requests have different method names, so no export hides another.
pub proof fn agent_members_are_distinct(a: AgentRequest, b: AgentRequest)
    requires
        a.spec_member()@ == b.spec_member()@,
    ensures
        a == b,
{
    reveal_strlit("Release");
    reveal_strlit("RequestPinCode");
    reveal_strlit("DisplayPinCode");
    reveal_strlit("RequestPasskey");
    reveal_strlit("DisplayPasskey");
    reveal_strlit("RequestConfirmation");
    reveal_strlit("AuthorizeService");
    reveal_strlit("Cancel");
    assert("Release"@.len() == 7 && "Cancel"@.len() == 6);
    assert("RequestConfirmation"@.len() == 19 && "AuthorizeService"@.len() == 16);
    assert("RequestPinCode"@.len() == 14 && "RequestPasskey"@.len() == 14);
    assert("DisplayPinCode"@.len() == 14 && "DisplayPasskey"@.len() == 14);
    assert("RequestPinCode"@[0] == 'R' && "RequestPinCode"@[8] == 'i');
    assert("RequestPasskey"@[0] == 'R' && "RequestPasskey"@[8] == 'a');
    assert("DisplayPinCode"@[0] == 'D' && "DisplayPinCode"@[8] == 'i');
    assert("DisplayPasskey"@[0] == 'D' && "DisplayPasskey"@[8] == 'a');
}

} // verus!
