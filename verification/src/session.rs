use vstd::prelude::*;
use vstd::string::StringExecFns;

use crate::broadcast::{Delivery, FrameView};
use crate::consensus::{consensus, ViewerId};
use crate::navigation::Action;
use crate::snapshot::{snapshot_json, ClientState};
use crate::state::{AppState, StateView};
use crate::viewer::is_random_uuid;

verus! {

/// A message of a viewer as it arrives: the word that says what the viewer
/// wants, and the token that the viewer chose for itself.
#[derive(Debug)]
pub struct ClientMsg {
    pub kind: String,
    pub uuid: String,
}

/// What a viewer can ask for.
#[derive(Clone, Copy, Debug, PartialEq, Eq, Structural)]
pub enum Command {
    Hello,
    Next,
    Prev,
}

/// The command that a word stands for. Any other word stands for nothing.
pub open spec fn command_of(kind: Seq<char>) -> Option<Command> {
    if kind == "hello"@ {
        Some(Command::Hello)
    } else if kind == "next"@ {
        Some(Command::Next)
    } else if kind == "prev"@ {
        Some(Command::Prev)
    } else {
        None
    }
}

/// The vote that a command casts: a greeting casts none.
pub open spec fn intent_of(command: Option<Command>) -> Option<Action> {
    match command {
        Some(Command::Next) => Some(Action::Next),
        Some(Command::Prev) => Some(Action::Prev),
        _ => None,
    }
}

/// The state after a message of the viewer `viewer`: a vote is cast for
/// `next` and `prev`, and nothing changes for a greeting or an unknown word.
pub open spec fn after_message(state: StateView, viewer: ViewerId, kind: Seq<char>) -> StateView {
    match intent_of(command_of(kind)) {
        Some(intent) => state.cast(viewer, intent),
        None => state,
    }
}

/// Reads the word of a message.
pub fn decode_command(kind: &str) -> (command: Option<Command>)
    ensures
        command == command_of(kind@),
{
    let word = String::from_str(kind);
    if word == String::from_str("hello") {
        Some(Command::Hello)
    } else if word == String::from_str("next") {
        Some(Command::Next)
    } else if word == String::from_str("prev") {
        Some(Command::Prev)
    } else {
        None
    }
}

/// The message completes a consensus: it stands for a vote, its viewer is
/// registered, and with this vote all viewers agree.
pub open spec fn decides(state: StateView, viewer: ViewerId, kind: Seq<char>) -> bool {
    &&& intent_of(command_of(kind)) matches Some(intent)
    &&& state.votes.contains_key(viewer)
    &&& consensus(state.voted(viewer, intent).votes) is Some
}

/// Handles one decoded message of a viewer. `next` and `prev` cast the
/// viewer's vote; when that completes a consensus, the new snapshot comes
/// back for every registered viewer, the voter included. A greeting and an
/// unknown word are dropped, and so is a vote of a viewer that is not
/// registered.
pub fn handle_client_msg(state: &mut AppState, viewer: ViewerId, msg: &ClientMsg) -> (broadcast:
    Option<Delivery>)
    requires
        old(state)@.wf(),
    ensures
        final(state)@ == after_message(old(state)@, viewer, msg.kind@),
        final(state)@.wf(),
        match broadcast {
            Some(delivery) => {
                &&& decides(old(state)@, viewer, msg.kind@)
                &&& delivery.frame@ == FrameView::Text(snapshot_json(final(state)@.snapshot()))
                &&& delivery.reaches_all(final(state)@)
            },
            None => !decides(old(state)@, viewer, msg.kind@),
        },
{
    let shown = match decode_command(msg.kind.as_str()) {
        Some(Command::Next) => state.cast_vote(viewer, Action::Next),
        Some(Command::Prev) => state.cast_vote(viewer, Action::Prev),
        Some(Command::Hello) => None,
        None => None,
    };
    match shown {
        Some(snapshot) => Some(state.deliver(&snapshot)),
        None => None,
    }
}

/// The life of one connection: it connects, is active while its viewer is
/// registered, and is closed for good.
#[derive(Clone, Copy, Debug, PartialEq, Eq, Structural)]
pub enum ConnectionSession {
    Connecting,
    Active { viewer: ViewerId },
    Closed,
}

impl ConnectionSession {
    /// The session after the upgrade, had the identifier `id` been drawn for
    /// it, and the state with it. A connecting session becomes active under a
    /// free identifier and is closed at once under a taken one; a session that
    /// is past connecting stays as it is.
    pub open spec fn opened(self, state: StateView, id: ViewerId) -> (ConnectionSession, StateView) {
        match self {
            ConnectionSession::Connecting => if state.votes.contains_key(id) {
                (ConnectionSession::Closed, state)
            } else {
                (ConnectionSession::Active { viewer: id }, state.joined(id))
            },
            _ => (self, state),
        }
    }

    /// The state after a message arrived on this session: only an active
    /// session's messages count.
    pub open spec fn received(self, state: StateView, kind: Seq<char>) -> StateView {
        match self {
            ConnectionSession::Active { viewer } => after_message(state, viewer, kind),
            _ => state,
        }
    }

    /// The state after this session ended: the viewer of an active session
    /// leaves; a session that was never active, or is closed already, has
    /// nobody to take out.
    pub open spec fn ended(self, state: StateView) -> StateView {
        match self {
            ConnectionSession::Active { viewer } => state.left(viewer),
            _ => state,
        }
    }

    /// A session for a connection that is being set up.
    pub fn new() -> (session: ConnectionSession)
        ensures
            session == ConnectionSession::Connecting,
    {
        ConnectionSession::Connecting
    }

    /// The viewer of an active session.
    pub fn viewer(&self) -> (viewer: Option<ViewerId>)
        ensures
            viewer == match *self {
                ConnectionSession::Active { viewer } => Some(viewer),
                _ => None,
            },
    {
        match self {
            ConnectionSession::Active { viewer } => Some(*viewer),
            _ => None,
        }
    }

    /// Completes the upgrade under the identifier `id`. A connecting session
    /// registers its viewer and gets the snapshot that is sent first; under an
    /// identifier that is taken it is closed without registering anybody.
    pub fn open_with(&mut self, state: &mut AppState, id: ViewerId) -> (first: Option<ClientState>)
        requires
            old(state)@.wf(),
        ensures
            (*final(self), final(state)@) == old(self).opened(old(state)@, id),
            final(state)@.wf(),
            match first {
                Some(snapshot) => *final(self) == (ConnectionSession::Active { viewer: id })
                    && *old(self) == ConnectionSession::Connecting && snapshot@ == final(state)@.snapshot(),
                None => !(*old(self) == ConnectionSession::Connecting && !old(state)@.votes.contains_key(id)),
            },
    {
        match self {
            ConnectionSession::Connecting => {
                if state.register_with(id) {
                    *self = ConnectionSession::Active { viewer: id };
                    Some(state.get_client_state())
                } else {
                    *self = ConnectionSession::Closed;
                    None
                }
            },
            _ => None,
        }
    }

    /// Completes the upgrade under a fresh random identifier.
    pub fn open(&mut self, state: &mut AppState) -> (first: Option<ClientState>)
        requires
            old(state)@.wf(),
        ensures
            exists|id: ViewerId|
                is_random_uuid(id) && (*final(self), final(state)@) == #[trigger] old(self).opened(
                    old(state)@,
                    id,
                ),
            final(state)@.wf(),
            match first {
                Some(snapshot) => *final(self) is Active && *old(self)
                    == ConnectionSession::Connecting && snapshot@ == final(state)@.snapshot(),
                None => !(*final(self) is Active) || *old(self) is Active,
            },
    {
        let id = crate::viewer::fresh_viewer_id();
        self.open_with(state, id)
    }

    /// Takes in one decoded message. On an active session it is handled for
    /// the session's viewer; on any other it is dropped.
    pub fn receive(&self, state: &mut AppState, msg: &ClientMsg) -> (broadcast: Option<Delivery>)
        requires
            old(state)@.wf(),
        ensures
            final(state)@ == self.received(old(state)@, msg.kind@),
            final(state)@.wf(),
            match broadcast {
                Some(delivery) => {
                    &&& *self matches ConnectionSession::Active { viewer }
                    &&& decides(old(state)@, viewer, msg.kind@)
                    &&& delivery.frame@ == FrameView::Text(
                        snapshot_json(final(state)@.snapshot()),
                    )
                    &&& delivery.reaches_all(final(state)@)
                },
                None => !(*self matches ConnectionSession::Active { viewer } && decides(
                    old(state)@,
                    viewer,
                    msg.kind@,
                )),
            },
    {
        match self {
            ConnectionSession::Active { viewer } => handle_client_msg(state, *viewer, msg),
            _ => None,
        }
    }

    /// Ends the session. The viewer of an active session is unregistered; as
    /// the session is closed from then on, that happens once and no more.
    pub fn close(&mut self, state: &mut AppState)
        requires
            old(state)@.wf(),
        ensures
            *final(self) == ConnectionSession::Closed,
            final(state)@ == old(self).ended(old(state)@),
            final(state)@.wf(),
    {
        match self {
            ConnectionSession::Active { viewer } => {
                state.unregister(*viewer);
            },
            _ => {},
        }
        *self = ConnectionSession::Closed;
    }
}

} // verus!
