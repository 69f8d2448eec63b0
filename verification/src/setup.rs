//! Bringing up the adapter before there is a connection manager.
use crate::error::Error;
use vstd::prelude::*;

verus! {

/// The next call that bringing up the adapter asks for.
#[derive(Debug, PartialEq, Eq)]
pub enum SetupStep {
    /// Open a session with the Bluetooth daemon.
    OpenSession,
    /// List the names of the adapters.
    ListAdapters,
    /// Open the adapter of this name.
    OpenAdapter(String),
    /// Switch the adapter on or off.
    SetPowered(bool),
    /// Allow pairing or not.
    SetPairable(bool),
    /// Set the number of seconds after which pairing ends by itself.
    SetPairableTimeout(u32),
    /// Make the adapter discoverable or not.
    SetDiscoverable(bool),
    /// Nothing: the adapter is configured for connectionless operation.
    Ready,
}

/// The mathematical content of a [`SetupStep`].
pub enum SetupView {
    OpenSession,
    ListAdapters,
    OpenAdapter(Seq<char>),
    SetPowered(bool),
    SetPairable(bool),
    SetPairableTimeout(u32),
    SetDiscoverable(bool),
    Ready,
}

impl View for SetupStep {
    type V = SetupView;

    open spec fn view(&self) -> SetupView {
        match self {
            SetupStep::OpenSession => SetupView::OpenSession,
            SetupStep::ListAdapters => SetupView::ListAdapters,
            SetupStep::OpenAdapter(name) => SetupView::OpenAdapter(name@),
            SetupStep::SetPowered(on) => SetupView::SetPowered(*on),
            SetupStep::SetPairable(on) => SetupView::SetPairable(*on),
            SetupStep::SetPairableTimeout(seconds) => SetupView::SetPairableTimeout(*seconds),
            SetupStep::SetDiscoverable(on) => SetupView::SetDiscoverable(*on),
            SetupStep::Ready => SetupView::Ready,
        }
    }
}

/// The outcome of a call: the names that it returned (none, unless it lists names), or the
/// text of its error.
pub type SetupReplyView = Result<Seq<Seq<char>>, Seq<char>>;

/// The content of the outcome of a call.
pub open spec fn reply_view(reply: Result<Vec<String>, String>) -> SetupReplyView {
    match reply {
        Ok(names) => Ok(names@.map_values(|name: String| name@)),
        Err(cause) => Err(cause@),
    }
}

impl SetupView {
    /// The step after this one, or the message with which bringing up the adapter fails.
    /// Without a session or a powered adapter there is nothing to manage; the settings
    /// that keep pairing prompts away may be unsupported, and their failure is tolerated.
    pub open spec fn next(self, reply: SetupReplyView) -> Result<SetupView, Seq<char>> {
        match self {
            SetupView::OpenSession => match reply {
                Ok(_) => Ok(SetupView::ListAdapters),
                Err(cause) => Err("Failed to create session: "@ + cause),
            },
            SetupView::ListAdapters => match reply {
                Ok(names) => if names.len() > 0 {
                    Ok(SetupView::OpenAdapter(names[0]))
                } else {
                    Err("No Bluetooth adapter found"@)
                },
                Err(cause) => Err("Failed to get adapter names: "@ + cause),
            },
            SetupView::OpenAdapter(_) => match reply {
                Ok(_) => Ok(SetupView::SetPowered(true)),
                Err(cause) => Err("Failed to get adapter: "@ + cause),
            },
            SetupView::SetPowered(_) => match reply {
                Ok(_) => Ok(SetupView::SetPairable(false)),
                Err(cause) => Err("Failed to power on adapter: "@ + cause),
            },
            SetupView::SetPairable(_) => Ok(SetupView::SetPairableTimeout(0)),
            SetupView::SetPairableTimeout(_) => Ok(SetupView::SetDiscoverable(false)),
            SetupView::SetDiscoverable(_) => Ok(SetupView::Ready),
            SetupView::Ready => Ok(SetupView::Ready),
        }
    }

    /// Where a series of outcomes leads to from this step.
    pub open spec fn after(self, replies: Seq<SetupReplyView>) -> Result<SetupView, Seq<char>>
        decreases replies.len(),
    {
        if replies.len() == 0 {
            Ok(self)
        } else {
            match self.next(replies[0]) {
                Ok(step) => step.after(replies.drop_first()),
                Err(message) => Err(message),
            }
        }
    }
}

impl SetupStep {
    /// The first step.
    pub fn begin() -> (step: SetupStep)
        ensures
            step@ == SetupView::OpenSession,
            step is OpenSession,
    {
        SetupStep::OpenSession
    }

    /// Takes the outcome of this step's call and returns the step after it.
    pub fn advance(self, reply: Result<Vec<String>, String>) -> (next: Result<SetupStep, Error>)
        ensures
            match next {
                Ok(step) => self@.next(reply_view(reply)) == Ok::<SetupView, Seq<char>>(step@),
                Err(error) => self@.next(reply_view(reply)) == Err::<SetupView, Seq<char>>(error@),
            },
            match (self, reply) {
                (SetupStep::OpenSession, Ok(_)) => next matches Ok(SetupStep::ListAdapters),
                (SetupStep::OpenSession, Err(cause)) => next matches Err(Error::Bluetooth(text))
                    && text@ == "Failed to create session: "@ + cause@,
                (SetupStep::ListAdapters, Ok(names)) => if names@.len() > 0 {
                    next matches Ok(SetupStep::OpenAdapter(name)) && name@ == names@[0]@
                } else {
                    next matches Err(Error::Bluetooth(text)) && text@
                        == "No Bluetooth adapter found"@
                },
                (SetupStep::ListAdapters, Err(cause)) => next matches Err(Error::Bluetooth(text))
                    && text@ == "Failed to get adapter names: "@ + cause@,
                (SetupStep::OpenAdapter(_), Ok(_)) => next matches Ok(SetupStep::SetPowered(on))
                    && on,
                (SetupStep::OpenAdapter(_), Err(cause)) => next matches Err(Error::Bluetooth(text))
                    && text@ == "Failed to get adapter: "@ + cause@,
                (SetupStep::SetPowered(_), Ok(_)) => next matches Ok(SetupStep::SetPairable(on))
                    && !on,
                (SetupStep::SetPowered(_), Err(cause)) => next matches Err(Error::Bluetooth(text))
                    && text@ == "Failed to power on adapter: "@ + cause@,
                (SetupStep::SetPairable(_), _) => next matches Ok(
                    SetupStep::SetPairableTimeout(seconds),
                ) && seconds == 0,
                (SetupStep::SetPairableTimeout(_), _) => next matches Ok(
                    SetupStep::SetDiscoverable(on),
                ) && !on,
                (SetupStep::SetDiscoverable(_), _) => next matches Ok(SetupStep::Ready),
                (SetupStep::Ready, _) => next matches Ok(SetupStep::Ready),
            },
    {
        match self {
            SetupStep::OpenSession => match reply {
                Ok(_) => Ok(SetupStep::ListAdapters),
                Err(cause) => Err(Error::bluetooth("Failed to create session: ", cause.as_str())),
            },
            SetupStep::ListAdapters => match reply {
                Ok(names) => if names.len() > 0 {
                    Ok(SetupStep::OpenAdapter(names[0].clone()))
                } else {
                    Err(Error::Bluetooth("No Bluetooth adapter found".to_owned()))
                },
                Err(cause) => Err(
                    Error::bluetooth("Failed to get adapter names: ", cause.as_str()),
                ),
            },
            SetupStep::OpenAdapter(_) => match reply {
                Ok(_) => Ok(SetupStep::SetPowered(true)),
                Err(cause) => Err(Error::bluetooth("Failed to get adapter: ", cause.as_str())),
            },
            SetupStep::SetPowered(_) => match reply {
                Ok(_) => Ok(SetupStep::SetPairable(false)),
                Err(cause) => Err(
                    Error::bluetooth("Failed to power on adapter: ", cause.as_str()),
                ),
            },
            SetupStep::SetPairable(_) => Ok(SetupStep::SetPairableTimeout(0)),
            SetupStep::SetPairableTimeout(_) => Ok(SetupStep::SetDiscoverable(false)),
            SetupStep::SetDiscoverable(_) => Ok(SetupStep::Ready),
            SetupStep::Ready => Ok(SetupStep::Ready),
        }
    }
}

/// The content of a step is the call with its arguments, and the content of a reply its names
/// in order or its cause.
pub proof fn setup_content_is_faithful(
    name: String,
    on: bool,
    seconds: u32,
    names: Vec<String>,
    cause: String,
)
    ensures
        SetupStep::OpenSession@ == SetupView::OpenSession,
        SetupStep::ListAdapters@ == SetupView::ListAdapters,
        SetupStep::OpenAdapter(name)@ == SetupView::OpenAdapter(name@),
        SetupStep::SetPowered(on)@ == SetupView::SetPowered(on),
        SetupStep::SetPairable(on)@ == SetupView::SetPairable(on),
        SetupStep::SetPairableTimeout(seconds)@ == SetupView::SetPairableTimeout(seconds),
        SetupStep::SetDiscoverable(on)@ == SetupView::SetDiscoverable(on),
        SetupStep::Ready@ == SetupView::Ready,
        reply_view(Ok(names)) matches Ok(seen) && seen.len() == names@.len() && forall|i: int|
            0 <= i < names@.len() ==> #[trigger] seen[i] == names@[i]@,
        reply_view(Err(cause)) == Err::<Seq<Seq<char>>, Seq<char>>(cause@),
{
}

/// Each of the first four calls leads on by success alone and fails with its own message and
/// cause; each of the last three leads on whatever its outcome. The adapter that is opened is
/// the first of those listed, however many there are. The calls that follow ask for power, no
/// pairing, a pairing time of zero and no discoverability.
pub proof fn setup_goes_call_by_call(
    names: Seq<Seq<char>>,
    cause: Seq<char>,
    outcome: SetupReplyView,
    name: Seq<char>,
    on: bool,
    seconds: u32,
)
    ensures
        SetupView::OpenSession.next(Ok(names)) matches Ok(SetupView::ListAdapters),
        SetupView::OpenSession.next(Err(cause)) matches Err(message) && message
            == "Failed to create session: "@ + cause,
        names.len() > 0 ==> (SetupView::ListAdapters.next(Ok(names)) matches Ok(
            SetupView::OpenAdapter(chosen),
        ) && chosen == names[0]),
        names.len() == 0 ==> (SetupView::ListAdapters.next(Ok(names)) matches Err(message)
            && message == "No Bluetooth adapter found"@),
        SetupView::ListAdapters.next(Err(cause)) matches Err(message) && message
            == "Failed to get adapter names: "@ + cause,
        SetupView::OpenAdapter(name).next(Ok(names)) matches Ok(SetupView::SetPowered(power))
            && power,
        SetupView::OpenAdapter(name).next(Err(cause)) matches Err(message) && message
            == "Failed to get adapter: "@ + cause,
        SetupView::SetPowered(on).next(Ok(names)) matches Ok(SetupView::SetPairable(pairable))
            && !pairable,
        SetupView::SetPowered(on).next(Err(cause)) matches Err(message) && message
            == "Failed to power on adapter: "@ + cause,
        SetupView::SetPairable(on).next(outcome) matches Ok(SetupView::SetPairableTimeout(limit))
            && limit == 0,
        SetupView::SetPairableTimeout(seconds).next(outcome) matches Ok(
            SetupView::SetDiscoverable(visible),
        ) && !visible,
        SetupView::SetDiscoverable(on).next(outcome) matches Ok(SetupView::Ready),
        SetupView::Ready.next(outcome) matches Ok(SetupView::Ready),
{
}

/// The seven calls are made in order, the adapter opened is the first one listed, and the
/// whole succeeds exactly if the first four calls succeed and an adapter is listed. The
/// first of these to fail gives the message; the outcomes of the last three do not matter.
pub proof fn setup_runs_to_ready(replies: Seq<SetupReplyView>)
    requires
        replies.len() == 7,
    ensures
        SetupView::OpenSession.after(replies) == (if replies[0] is Err {
            Err("Failed to create session: "@ + replies[0]->Err_0)
        } else if replies[1] is Err {
            Err("Failed to get adapter names: "@ + replies[1]->Err_0)
        } else if replies[1]->Ok_0.len() == 0 {
            Err("No Bluetooth adapter found"@)
        } else if replies[2] is Err {
            Err("Failed to get adapter: "@ + replies[2]->Err_0)
        } else if replies[3] is Err {
            Err("Failed to power on adapter: "@ + replies[3]->Err_0)
        } else {
            Ok(SetupView::Ready)
        }),
        replies[0] is Ok && replies[1] is Ok && replies[1]->Ok_0.len() > 0 ==> {
            &&& SetupView::OpenSession.after(replies.take(2)) == Ok::<SetupView, Seq<char>>(
                SetupView::OpenAdapter(replies[1]->Ok_0[0]),
            )
            &&& replies[2] is Ok ==> {
                &&& SetupView::OpenSession.after(replies.take(3)) == Ok::<SetupView, Seq<char>>(
                    SetupView::SetPowered(true),
                )
                &&& replies[3] is Ok ==> {
                    &&& SetupView::OpenSession.after(replies.take(4)) == Ok::<
                        SetupView,
                        Seq<char>,
                    >(SetupView::SetPairable(false))
                    &&& SetupView::OpenSession.after(replies.take(5)) == Ok::<
                        SetupView,
                        Seq<char>,
                    >(SetupView::SetPairableTimeout(0))
                    &&& SetupView::OpenSession.after(replies.take(6)) == Ok::<
                        SetupView,
                        Seq<char>,
                    >(SetupView::SetDiscoverable(false))
                }
            }
        },
{
    reveal_with_fuel(SetupView::after, 8);
}

} // verus!
