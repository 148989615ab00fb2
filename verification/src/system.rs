use vstd::prelude::*;

use crate::collection::{browsable, MangaView};
use crate::consensus::ViewerId;
use crate::laws::{law_cursor_stays_in_range, law_membership};
use crate::navigation::Action;
use crate::session::{command_of, intent_of, ConnectionSession};
use crate::state::StateView;

verus! {

/// The service as a whole: the shared state and every session that was ever
/// accepted, the closed ones too.
pub struct System {
    pub state: StateView,
    pub sessions: Seq<ConnectionSession>,
}

/// What can happen to the service.
pub enum Happening {
    /// A connection arrives and gets a session.
    Connect,
    /// The upgrade of a session completes, `id` being the identifier drawn.
    Upgrade { session: int, id: ViewerId },
    /// A decoded message arrives on a session.
    Message { session: int, kind: Seq<char> },
    /// The transport of a session closes or fails.
    Disconnect { session: int },
}

impl System {
    /// The service at startup: no session, nobody registered.
    pub open spec fn start(collection: Seq<MangaView>) -> System {
        System { state: StateView::initial(collection), sessions: Seq::empty() }
    }

    /// The service after one happening. One that names a session that does not
    /// exist changes nothing.
    pub open spec fn after(self, happening: Happening) -> System {
        match happening {
            Happening::Connect => System {
                sessions: self.sessions.push(ConnectionSession::Connecting),
                ..self
            },
            Happening::Upgrade { session, id } => if 0 <= session < self.sessions.len() {
                let (opened, state) = self.sessions[session].opened(self.state, id);
                System { state, sessions: self.sessions.update(session, opened) }
            } else {
                self
            },
            Happening::Message { session, kind } => if 0 <= session < self.sessions.len() {
                System { state: self.sessions[session].received(self.state, kind), ..self }
            } else {
                self
            },
            Happening::Disconnect { session } => if 0 <= session < self.sessions.len() {
                System {
                    state: self.sessions[session].ended(self.state),
                    sessions: self.sessions.update(session, ConnectionSession::Closed),
                }
            } else {
                self
            },
        }
    }

    /// The service after a sequence of happenings, in order.
    pub open spec fn run(self, happenings: Seq<Happening>) -> System
        decreases happenings.len(),
    {
        if happenings.len() == 0 {
            self
        } else {
            self.run(happenings.drop_last()).after(happenings.last())
        }
    }

    /// The sessions that are open, by their place among the sessions.
    pub open spec fn open_sessions(self) -> Set<int> {
        Set::new(|i: int| 0 <= i < self.sessions.len() && self.sessions[i] is Active)
    }

    /// The viewer of the session at a place, for an open session.
    pub open spec fn viewer_at(self, i: int) -> ViewerId {
        self.sessions[i]->viewer
    }

    /// The registry and the sessions tell the same story: every open session's
    /// viewer is registered, every registered viewer has an open session, and
    /// no two open sessions share a viewer.
    pub open spec fn coherent(self) -> bool {
        &&& self.state.wf()
        &&& forall|i: int| #[trigger]
            self.open_sessions().contains(i) ==> self.state.votes.contains_key(self.viewer_at(i))
        &&& forall|id: ViewerId| #[trigger]
            self.state.votes.contains_key(id) ==> exists|i: int| #[trigger]
                self.open_sessions().contains(i) && self.viewer_at(i) == id
        &&& forall|i: int, j: int|
            #![trigger self.open_sessions().contains(i), self.open_sessions().contains(j)]
            self.open_sessions().contains(i) && self.open_sessions().contains(j) && self.viewer_at(
                i,
            ) == self.viewer_at(j) ==> i == j
    }
}

/// A coherent service has as many registered viewers as open sessions.
pub proof fn lemma_coherent_counts(system: System)
    requires
        system.coherent(),
    ensures
        system.open_sessions().finite(),
        system.state.votes.dom().len() == system.open_sessions().len(),
{
    let open = system.open_sessions();
    let range = vstd::set_lib::set_int_range(0, system.sessions.len() as int);
    vstd::set_lib::lemma_int_range(0, system.sessions.len() as int);
    assert(open.subset_of(range));
    vstd::set_lib::lemma_len_subset(open, range);
    let f = |i: int| system.viewer_at(i);
    assert(vstd::relations::injective_on(f, open)) by {
        assert forall|i: int, j: int| open.contains(i) && open.contains(j) && #[trigger] f(i)
            == #[trigger] f(j) implies i == j by {
            assert(system.viewer_at(i) == system.viewer_at(j));
        }
    }
    assert(open.map(f) =~= system.state.votes.dom()) by {
        assert forall|id: ViewerId| open.map(f).contains(id) implies system.state.votes.dom().contains(
            id,
        ) by {
            let i = choose|i: int| open.contains(i) && f(i) == id;
            assert(system.open_sessions().contains(i));
        }
        assert forall|id: ViewerId| system.state.votes.dom().contains(id) implies open.map(
            f,
        ).contains(id) by {
            assert(system.state.votes.contains_key(id));
            let i = choose|i: int| #[trigger]
                system.open_sessions().contains(i) && system.viewer_at(i) == id;
            assert(open.contains(i) && f(i) == id);
        }
    }
    vstd::set_lib::lemma_map_size(open, system.state.votes.dom(), f);
}

/// Whatever happens to a coherent service leaves it coherent.
pub proof fn lemma_after_keeps_coherent(system: System, happening: Happening)
    requires
        system.coherent(),
    ensures
        system.after(happening).coherent(),
{
    let next = system.after(happening);
    match happening {
        Happening::Connect => {
            assert forall|i: int| #[trigger] next.open_sessions().contains(i) implies system.open_sessions().contains(
                i,
            ) && next.viewer_at(i) == system.viewer_at(i) by {}
            assert forall|id: ViewerId| #[trigger]
                next.state.votes.contains_key(id) implies exists|i: int| #[trigger]
                next.open_sessions().contains(i) && next.viewer_at(i) == id by {
                let i = choose|i: int| #[trigger]
                    system.open_sessions().contains(i) && system.viewer_at(i) == id;
                assert(next.open_sessions().contains(i) && next.viewer_at(i) == id);
            }
        },
        Happening::Upgrade { session, id } => {
            if 0 <= session < system.sessions.len() {
                law_cursor_stays_in_range(system.state, id, Action::Next);
                law_membership(system.state, id, Action::Next);
                let was = system.sessions[session];
                if was == ConnectionSession::Connecting && !system.state.votes.contains_key(id) {
                    assert forall|i: int| #[trigger] next.open_sessions().contains(i) implies (i
                        == session && next.viewer_at(i) == id) || (i != session
                        && system.open_sessions().contains(i) && next.viewer_at(i)
                        == system.viewer_at(i)) by {}
                    assert forall|k: ViewerId| #[trigger]
                        next.state.votes.contains_key(k) implies exists|i: int| #[trigger]
                        next.open_sessions().contains(i) && next.viewer_at(i) == k by {
                        if k == id {
                            assert(next.open_sessions().contains(session) && next.viewer_at(session)
                                == k);
                        } else {
                            assert(system.state.votes.contains_key(k));
                            let i = choose|i: int| #[trigger]
                                system.open_sessions().contains(i) && system.viewer_at(i) == k;
                            assert(i != session);
                            assert(next.open_sessions().contains(i) && next.viewer_at(i) == k);
                        }
                    }
                } else {
                    assert(next.state == system.state);
                    assert forall|i: int| #[trigger] next.open_sessions().contains(i) implies system.open_sessions().contains(
                        i,
                    ) && next.viewer_at(i) == system.viewer_at(i) by {}
                    assert forall|k: ViewerId| #[trigger]
                        next.state.votes.contains_key(k) implies exists|i: int| #[trigger]
                        next.open_sessions().contains(i) && next.viewer_at(i) == k by {
                        let i = choose|i: int| #[trigger]
                            system.open_sessions().contains(i) && system.viewer_at(i) == k;
                        assert(next.open_sessions().contains(i) && next.viewer_at(i) == k);
                    }
                }
            }
        },
        Happening::Message { session, kind } => {
            if 0 <= session < system.sessions.len() {
                match system.sessions[session] {
                    ConnectionSession::Active { viewer } => {
                        match intent_of(command_of(kind)) {
                            Some(intent) => {
                                law_cursor_stays_in_range(system.state, viewer, intent);
                                law_membership(system.state, viewer, intent);
                            },
                            None => {},
                        }
                    },
                    _ => {},
                }
                assert(next.state.votes.dom() == system.state.votes.dom());
                assert(next.open_sessions() =~= system.open_sessions());
                assert forall|k: ViewerId| #[trigger]
                    next.state.votes.contains_key(k) implies exists|i: int| #[trigger]
                    next.open_sessions().contains(i) && next.viewer_at(i) == k by {
                    assert(system.state.votes.dom().contains(k));
                    assert(system.state.votes.contains_key(k));
                    let i = choose|i: int| #[trigger]
                        system.open_sessions().contains(i) && system.viewer_at(i) == k;
                    assert(next.open_sessions().contains(i) && next.viewer_at(i) == k);
                }
                assert forall|i: int| #[trigger]
                    next.open_sessions().contains(i) implies next.state.votes.contains_key(
                    next.viewer_at(i),
                ) by {
                    assert(system.open_sessions().contains(i));
                    assert(system.state.votes.dom().contains(system.viewer_at(i)));
                }
            }
        },
        Happening::Disconnect { session } => {
            if 0 <= session < system.sessions.len() {
                let was = system.sessions[session];
                assert forall|i: int| #[trigger] next.open_sessions().contains(i) implies i
                    != session && system.open_sessions().contains(i) && next.viewer_at(i)
                    == system.viewer_at(i) by {}
                match was {
                    ConnectionSession::Active { viewer } => {
                        law_cursor_stays_in_range(system.state, viewer, Action::Next);
                        law_membership(system.state, viewer, Action::Next);
                        assert(system.open_sessions().contains(session));
                        assert forall|k: ViewerId| #[trigger]
                            next.state.votes.contains_key(k) implies exists|i: int| #[trigger]
                            next.open_sessions().contains(i) && next.viewer_at(i) == k by {
                            assert(next.state.votes.dom().contains(k));
                            assert(system.state.votes.contains_key(k) && k != viewer);
                            let i = choose|i: int| #[trigger]
                                system.open_sessions().contains(i) && system.viewer_at(i) == k;
                            assert(i != session);
                            assert(next.open_sessions().contains(i) && next.viewer_at(i) == k);
                        }
                        assert forall|i: int| #[trigger]
                            next.open_sessions().contains(i) implies next.state.votes.contains_key(
                            next.viewer_at(i),
                        ) by {
                            assert(system.open_sessions().contains(i));
                            assert(system.viewer_at(i) != viewer);
                            assert(next.state.votes.dom().contains(system.viewer_at(i)));
                        }
                    },
                    _ => {
                        assert(next.state == system.state);
                        assert forall|k: ViewerId| #[trigger]
                            next.state.votes.contains_key(k) implies exists|i: int| #[trigger]
                            next.open_sessions().contains(i) && next.viewer_at(i) == k by {
                            let i = choose|i: int| #[trigger]
                                system.open_sessions().contains(i) && system.viewer_at(i) == k;
                            assert(i != session);
                            assert(next.open_sessions().contains(i) && next.viewer_at(i) == k);
                        }
                    },
                }
            }
        },
    }
}

/// After any sequence of connections, upgrades, messages and disconnections
/// from startup, the registered viewers are as many as the open sessions, and
/// the cursor names a page that exists.
pub proof fn law_viewers_match_sessions(collection: Seq<MangaView>, happenings: Seq<Happening>)
    requires
        browsable(collection),
    ensures
        System::start(collection).run(happenings).coherent(),
        System::start(collection).run(happenings).open_sessions().finite(),
        System::start(collection).run(happenings).state.votes.dom().len() == System::start(
            collection,
        ).run(happenings).open_sessions().len(),
    decreases happenings.len(),
{
    let start = System::start(collection);
    if happenings.len() == 0 {
        assert(start.state.pages()[0] == collection[0].page_paths.len());
        assert(start.coherent());
    } else {
        law_viewers_match_sessions(collection, happenings.drop_last());
        lemma_after_keeps_coherent(start.run(happenings.drop_last()), happenings.last());
    }
    lemma_coherent_counts(start.run(happenings));
}

} // verus!
