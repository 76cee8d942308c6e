//! The ingest gateway's forwarding link: events received over HTTP are sent
//! to the workers' AMQP address. The link connects (with retries), opens a
//! session, attaches a sender, then forwards events one by one; any failure
//! while setting up starts over from the connection, and a closed event
//! channel or an interrupt stops it. The application performs each action.
use vstd::prelude::*;

verus! {

/// Where the link stands.
#[derive(Debug, Clone, Copy, PartialEq, Eq, Structural)]
pub enum LinkStage {
    Connecting,
    OpeningSession,
    AttachingLink,
    Forwarding,
    Sending,
    Stopped,
}

/// What the application reports back.
pub enum LinkEvent {
    /// The connection attempt (after its retries) ended.
    Connected(Result<(), String>),
    /// Beginning the session ended.
    SessionBegun(Result<(), String>),
    /// Attaching the sender link ended.
    LinkAttached(Result<(), String>),
    /// The next event arrived, serialized; `None` when the channel closed.
    Received(Option<String>),
    /// The last event was sent.
    Sent,
    /// The process was interrupted.
    Interrupted,
}

/// What the application is asked to do next.
pub enum LinkAction {
    /// Open a connection to the broker, retrying with backoff.
    Connect,
    /// Begin a session on the connection.
    BeginSession,
    /// Attach a sender link to the workers' address.
    AttachLink,
    /// Wait for the next event (or an interrupt).
    AwaitEvent,
    /// Send this serialized event.
    Send(String),
    /// Log this failure and connect again.
    Reconnect(String),
    /// Stop forwarding.
    Stop,
}

/// The plain view of an event.
pub enum LinkInput {
    Connected(Result<(), Seq<char>>),
    SessionBegun(Result<(), Seq<char>>),
    LinkAttached(Result<(), Seq<char>>),
    Received(Option<Seq<char>>),
    Sent,
    Interrupted,
}

/// The plain view of an action.
pub enum LinkOutput {
    Connect,
    BeginSession,
    AttachLink,
    AwaitEvent,
    Send(Seq<char>),
    Reconnect(Seq<char>),
    Stop,
}

/// A unit result with its error taken by its view.
pub open spec fn unit_view(r: Result<(), String>) -> Result<(), Seq<char>> {
    match r {
        Ok(_) => Ok(()),
        Err(e) => Err(e@),
    }
}

impl View for LinkEvent {
    type V = LinkInput;

    open spec fn view(&self) -> LinkInput {
        match self {
            LinkEvent::Connected(r) => LinkInput::Connected(unit_view(*r)),
            LinkEvent::SessionBegun(r) => LinkInput::SessionBegun(unit_view(*r)),
            LinkEvent::LinkAttached(r) => LinkInput::LinkAttached(unit_view(*r)),
            LinkEvent::Received(m) => LinkInput::Received(
                match m {
                    Some(s) => Some(s@),
                    None => None,
                },
            ),
            LinkEvent::Sent => LinkInput::Sent,
            LinkEvent::Interrupted => LinkInput::Interrupted,
        }
    }
}

impl View for LinkAction {
    type V = LinkOutput;

    open spec fn view(&self) -> LinkOutput {
        match self {
            LinkAction::Connect => LinkOutput::Connect,
            LinkAction::BeginSession => LinkOutput::BeginSession,
            LinkAction::AttachLink => LinkOutput::AttachLink,
            LinkAction::AwaitEvent => LinkOutput::AwaitEvent,
            LinkAction::Send(m) => LinkOutput::Send(m@),
            LinkAction::Reconnect(e) => LinkOutput::Reconnect(e@),
            LinkAction::Stop => LinkOutput::Stop,
        }
    }
}

/// The transitions of the link. An event that does not belong to the stage
/// it arrives in (which the application never sends) leaves the stage as it
/// is and asks for what that stage waits for.
pub open spec fn link_next(stage: LinkStage, input: LinkInput) -> (LinkStage, LinkOutput) {
    match (stage, input) {
        (LinkStage::Stopped, _) => (LinkStage::Stopped, LinkOutput::Stop),
        (_, LinkInput::Interrupted) => (LinkStage::Stopped, LinkOutput::Stop),
        (LinkStage::Connecting, LinkInput::Connected(Ok(_))) => (LinkStage::OpeningSession, LinkOutput::BeginSession),
        (LinkStage::Connecting, LinkInput::Connected(Err(e))) => (LinkStage::Connecting, LinkOutput::Reconnect(e)),
        (LinkStage::OpeningSession, LinkInput::SessionBegun(Ok(_))) => (LinkStage::AttachingLink, LinkOutput::AttachLink),
        (LinkStage::OpeningSession, LinkInput::SessionBegun(Err(e))) => (LinkStage::Connecting, LinkOutput::Reconnect(e)),
        (LinkStage::AttachingLink, LinkInput::LinkAttached(Ok(_))) => (LinkStage::Forwarding, LinkOutput::AwaitEvent),
        (LinkStage::AttachingLink, LinkInput::LinkAttached(Err(e))) => (LinkStage::Connecting, LinkOutput::Reconnect(e)),
        (LinkStage::Forwarding, LinkInput::Received(Some(m))) => (LinkStage::Sending, LinkOutput::Send(m)),
        (LinkStage::Forwarding, LinkInput::Received(None)) => (LinkStage::Stopped, LinkOutput::Stop),
        (LinkStage::Sending, LinkInput::Sent) => (LinkStage::Forwarding, LinkOutput::AwaitEvent),
        (s, _) => (s, waiting_for(s)),
    }
}

/// What a stage waits for.
pub open spec fn waiting_for(stage: LinkStage) -> LinkOutput {
    match stage {
        LinkStage::Connecting => LinkOutput::Connect,
        LinkStage::OpeningSession => LinkOutput::BeginSession,
        LinkStage::AttachingLink => LinkOutput::AttachLink,
        LinkStage::Forwarding => LinkOutput::AwaitEvent,
        LinkStage::Sending => LinkOutput::AwaitEvent,
        LinkStage::Stopped => LinkOutput::Stop,
    }
}

fn waiting_action(stage: LinkStage) -> (a: LinkAction)
    ensures
        a@ == waiting_for(stage),
{
    match stage {
        LinkStage::Connecting => LinkAction::Connect,
        LinkStage::OpeningSession => LinkAction::BeginSession,
        LinkStage::AttachingLink => LinkAction::AttachLink,
        LinkStage::Forwarding => LinkAction::AwaitEvent,
        LinkStage::Sending => LinkAction::AwaitEvent,
        LinkStage::Stopped => LinkAction::Stop,
    }
}

/// The link's first action: connect.
pub fn link_start() -> (s: (LinkStage, LinkAction))
    ensures
        s.0 == LinkStage::Connecting,
        s.1@ == LinkOutput::Connect,
{
    (LinkStage::Connecting, LinkAction::Connect)
}

/// Decides what follows `event` in `stage`.
pub fn link_step(stage: LinkStage, event: LinkEvent) -> (next: (LinkStage, LinkAction))
    ensures
        (next.0, next.1@) == link_next(stage, event@),
{
    if stage == LinkStage::Stopped {
        return (LinkStage::Stopped, LinkAction::Stop);
    }
    match event {
        LinkEvent::Interrupted => (LinkStage::Stopped, LinkAction::Stop),
        LinkEvent::Connected(r) => {
            if stage == LinkStage::Connecting {
                match r {
                    Ok(_) => (LinkStage::OpeningSession, LinkAction::BeginSession),
                    Err(e) => (LinkStage::Connecting, LinkAction::Reconnect(e)),
                }
            } else {
                (stage, waiting_action(stage))
            }
        },
        LinkEvent::SessionBegun(r) => {
            if stage == LinkStage::OpeningSession {
                match r {
                    Ok(_) => (LinkStage::AttachingLink, LinkAction::AttachLink),
                    Err(e) => (LinkStage::Connecting, LinkAction::Reconnect(e)),
                }
            } else {
                (stage, waiting_action(stage))
            }
        },
        LinkEvent::LinkAttached(r) => {
            if stage == LinkStage::AttachingLink {
                match r {
                    Ok(_) => (LinkStage::Forwarding, LinkAction::AwaitEvent),
                    Err(e) => (LinkStage::Connecting, LinkAction::Reconnect(e)),
                }
            } else {
                (stage, waiting_action(stage))
            }
        },
        LinkEvent::Received(m) => {
            if stage == LinkStage::Forwarding {
                match m {
                    Some(msg) => (LinkStage::Sending, LinkAction::Send(msg)),
                    None => (LinkStage::Stopped, LinkAction::Stop),
                }
            } else {
                (stage, waiting_action(stage))
            }
        },
        LinkEvent::Sent => {
            if stage == LinkStage::Sending {
                (LinkStage::Forwarding, LinkAction::AwaitEvent)
            } else {
                (stage, waiting_action(stage))
            }
        },
    }
}

/// A stopped link stays stopped; an interrupt stops the link in any stage;
/// a failure while setting the link up goes back to connecting; and every
/// event that arrives while forwarding is sent exactly as it was received.
pub proof fn lemma_link_laws(stage: LinkStage, input: LinkInput)
    ensures
        stage == LinkStage::Stopped ==> link_next(stage, input) == (LinkStage::Stopped, LinkOutput::Stop),
        input is Interrupted ==> link_next(stage, input).0 == LinkStage::Stopped,
        stage == LinkStage::Connecting ==> (input matches LinkInput::Connected(Err(e)) ==> link_next(
            stage,
            input,
        ) == (LinkStage::Connecting, LinkOutput::Reconnect(e))),
        stage == LinkStage::OpeningSession ==> (input matches LinkInput::SessionBegun(Err(e))
            ==> link_next(stage, input) == (LinkStage::Connecting, LinkOutput::Reconnect(e))),
        stage == LinkStage::AttachingLink ==> (input matches LinkInput::LinkAttached(Err(e))
            ==> link_next(stage, input) == (LinkStage::Connecting, LinkOutput::Reconnect(e))),
        stage == LinkStage::Forwarding ==> (input matches LinkInput::Received(Some(m)) ==> link_next(
            stage,
            input,
        ) == (LinkStage::Sending, LinkOutput::Send(m))),
{
}

} // verus!
