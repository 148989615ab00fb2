use std::collections::HashMap;
use vstd::prelude::*;
use vstd::std_specs::hash::*;

use crate::collection::{browsable, page_counts, views, Manga, MangaView};
use crate::consensus::{check_consensus, clear_votes, cleared, consensus, viewer_ids, ViewerId, Votes};
use crate::navigation::{in_range, move_cursor, step, Action, Cursor};
use crate::snapshot::{page_address, page_src, ClientState, ClientStateView};
use crate::viewer::{fresh_viewer_id, is_random_uuid};

verus! {

/// The shared viewing state as mathematics: the collection, the cursor, and
/// the vote of every registered viewer.
pub struct StateView {
    pub collection: Seq<MangaView>,
    pub cursor: Cursor,
    pub votes: Votes,
}

impl StateView {
    /// The number of pages of each item.
    pub open spec fn pages(self) -> Seq<nat> {
        page_counts(self.collection)
    }

    /// The collection can be browsed, the cursor names a page that exists, and
    /// the viewers are finitely many.
    pub open spec fn wf(self) -> bool {
        &&& browsable(self.collection)
        &&& in_range(self.pages(), self.cursor)
        &&& self.votes.dom().finite()
    }

    /// The state at startup: the first page of the first item, and no viewer.
    pub open spec fn initial(collection: Seq<MangaView>) -> StateView {
        StateView { collection, cursor: Cursor { manga: 0, page: 0 }, votes: Map::empty() }
    }

    /// A viewer joins: it is registered without a vote, and every other
    /// viewer's vote is taken back.
    pub open spec fn joined(self, id: ViewerId) -> StateView {
        StateView { votes: cleared(self.votes).insert(id, None), ..self }
    }

    /// A registration under the identifier `id`: under a free identifier the
    /// viewer joins and the identifier comes back; under a taken one nobody
    /// joins and nothing comes back.
    pub open spec fn registered_under(self, id: ViewerId) -> (Option<ViewerId>, StateView) {
        if self.votes.contains_key(id) {
            (None, self)
        } else {
            (Some(id), self.joined(id))
        }
    }

    /// No random (version 4) identifier is taken, so that whichever is drawn
    /// is free. That is so, for one, while nobody is registered.
    pub open spec fn no_random_id_taken(self) -> bool {
        forall|id: ViewerId| #[trigger] is_random_uuid(id) ==> !self.votes.contains_key(id)
    }

    /// A viewer leaves: it is removed with its vote, and every remaining
    /// viewer's vote is taken back.
    pub open spec fn left(self, id: ViewerId) -> StateView {
        StateView { votes: cleared(self.votes.remove(id)), ..self }
    }

    /// A viewer's vote is recorded.
    pub open spec fn voted(self, id: ViewerId, intent: Action) -> StateView {
        StateView { votes: self.votes.insert(id, Some(intent)), ..self }
    }

    /// An agreed step is applied: the cursor makes the step, which at the edge
    /// of the collection goes nowhere, and all votes are taken back.
    pub open spec fn navigated(self, action: Action) -> StateView {
        StateView {
            cursor: step(self.pages(), self.cursor, action),
            votes: cleared(self.votes),
            ..self
        }
    }

    /// The votes are looked at: with a consensus its step is applied, without
    /// one nothing changes.
    pub open spec fn settled(self) -> StateView {
        match consensus(self.votes) {
            Some(action) => self.navigated(action),
            None => self,
        }
    }

    /// A vote is cast: a registered viewer's vote is recorded and the votes
    /// are looked at; a vote under an unknown identifier changes nothing.
    pub open spec fn cast(self, id: ViewerId, intent: Action) -> StateView {
        if self.votes.contains_key(id) {
            self.voted(id, intent).settled()
        } else {
            self
        }
    }

    /// What the viewers are shown at this cursor.
    pub open spec fn snapshot(self) -> ClientStateView {
        let item = self.collection[self.cursor.manga];
        ClientStateView {
            manga_name: item.name,
            page_src: page_address(self.cursor.manga as nat, self.cursor.page as nat),
            manga_score: item.score,
            manga_comment: item.comment,
            manga_pos: ((self.cursor.manga + 1) as nat, self.collection.len()),
            page_pos: ((self.cursor.page + 1) as nat, item.page_paths.len()),
        }
    }
}

/// The one authority on who is connected, what each viewer has voted, and
/// where the shared cursor stands.
pub struct AppState {
    mangas: Vec<Manga>,
    current_manga: usize,
    current_page: usize,
    actions: HashMap<ViewerId, Option<Action>>,
}

impl View for AppState {
    type V = StateView;

    closed spec fn view(&self) -> StateView {
        StateView {
            collection: views(self.mangas@),
            cursor: Cursor { manga: self.current_manga as int, page: self.current_page as int },
            votes: self.actions@,
        }
    }
}

impl AppState {
    /// The state at startup, over a collection that can be browsed.
    pub fn from_displayed(mangas: Vec<Manga>) -> (state: AppState)
        requires
            browsable(views(mangas@)),
        ensures
            state@ == StateView::initial(views(mangas@)),
            state@.wf(),
    {
        let state = AppState {
            mangas,
            current_manga: 0,
            current_page: 0,
            actions: HashMap::new(),
        };
        assert(state@.pages()[0] == state@.collection[0].page_paths.len());
        state
    }

    /// The cursor as item index and page index.
    pub fn cursor(&self) -> (at: (usize, usize))
        ensures
            (Cursor { manga: at.0 as int, page: at.1 as int }) == self@.cursor,
    {
        (self.current_manga, self.current_page)
    }

    /// The items of the collection.
    pub fn collection(&self) -> (mangas: &Vec<Manga>)
        ensures
            views(mangas@) == self@.collection,
    {
        &self.mangas
    }

    /// The number of registered viewers.
    pub fn viewer_count(&self) -> (count: usize)
        ensures
            count == self@.votes.len(),
    {
        broadcast use group_hash_axioms;

        self.actions.len()
    }

    /// Whether a viewer is registered under this identifier.
    pub fn is_registered(&self, id: ViewerId) -> (known: bool)
        ensures
            known == self@.votes.contains_key(id),
    {
        broadcast use group_hash_axioms;

        self.actions.contains_key(&id)
    }

    /// The vote that a viewer has pending: `None` for a viewer that has not
    /// voted in this round, and for an identifier that is not registered.
    pub fn vote_of(&self, id: ViewerId) -> (vote: Option<Action>)
        ensures
            vote == if self@.votes.contains_key(id) {
                self@.votes[id]
            } else {
                None
            },
    {
        broadcast use group_hash_axioms;

        match self.actions.get(&id) {
            Some(vote) => *vote,
            None => None,
        }
    }

    /// The registered viewers, each once, in no particular order: the
    /// receivers of every broadcast and of every heartbeat.
    pub fn viewers(&self) -> (ids: Vec<ViewerId>)
        ensures
            ids@.no_duplicates(),
            ids@.to_set() == self@.votes.dom(),
            ids@.len() == self@.votes.len(),
    {
        viewer_ids(&self.actions)
    }

    /// What the viewers are shown at the current cursor.
    pub fn get_client_state(&self) -> (snapshot: ClientState)
        requires
            self@.wf(),
        ensures
            snapshot@ == self@.snapshot(),
    {
        assert(self@.pages().len() == self.mangas@.len());
        assert(self.current_manga < self.mangas.len());
        assert(self@.pages()[self.current_manga as int] == self@.collection[self.current_manga as int].page_paths.len());
        let manga = &self.mangas[self.current_manga];
        let pages = manga.page_count();
        ClientState {
            manga_name: manga.name().clone(),
            page_src: page_src(self.current_manga, self.current_page),
            manga_score: manga.score(),
            manga_comment: manga.comment().clone(),
            manga_pos: (self.current_manga + 1, self.mangas.len()),
            page_pos: (self.current_page + 1, pages),
        }
    }

    /// The direction that every registered viewer has voted for, if there is one.
    pub fn check_consensus(&self) -> (agreed: Option<Action>)
        ensures
            agreed == consensus(self@.votes),
    {
        check_consensus(&self.actions)
    }

    /// Applies an agreed step: moves the cursor one step, or not at all at the
    /// edge of the collection, and takes back all votes.
    pub fn navigate(&mut self, action: Action)
        requires
            old(self)@.wf(),
        ensures
            final(self)@ == old(self)@.navigated(action),
            final(self)@.wf(),
    {
        let moved = move_cursor(&self.mangas, self.current_manga, self.current_page, action);
        proof {
            crate::navigation::lemma_step_in_range(self@.pages(), self@.cursor, action);
        }
        self.current_manga = moved.0;
        self.current_page = moved.1;
        clear_votes(&mut self.actions);
        proof {
            crate::consensus::lemma_cleared(old(self)@.votes);
        }
    }

    /// Looks at the votes. With a consensus the step is applied, all votes are
    /// taken back, and the new snapshot comes back for broadcast; without one
    /// nothing changes and nothing comes back.
    pub fn try_advance(&mut self) -> (broadcast: Option<ClientState>)
        requires
            old(self)@.wf(),
        ensures
            final(self)@ == old(self)@.settled(),
            final(self)@.wf(),
            match broadcast {
                Some(snapshot) => {
                    &&& consensus(old(self)@.votes) is Some
                    &&& snapshot@ == final(self)@.snapshot()
                },
                None => consensus(old(self)@.votes) is None,
            },
    {
        match self.check_consensus() {
            Some(action) => {
                self.navigate(action);
                Some(self.get_client_state())
            },
            None => None,
        }
    }

    /// Registers a viewer under the given identifier, unless one is registered
    /// under it already. A new viewer has no vote, and its arrival takes back
    /// the vote of every other viewer.
    pub fn register_with(&mut self, id: ViewerId) -> (added: bool)
        requires
            old(self)@.wf(),
        ensures
            added == !old(self)@.votes.contains_key(id),
            added ==> final(self)@ == old(self)@.joined(id),
            !added ==> final(self)@ == old(self)@,
            final(self)@.wf(),
    {
        broadcast use group_hash_axioms;

        if self.actions.contains_key(&id) {
            return false;
        }
        clear_votes(&mut self.actions);
        self.actions.insert(id, None);
        true
    }

    /// Draws a random identifier and registers a viewer under it. It succeeds
    /// whenever the identifier drawn is free, and so always while no random
    /// identifier is taken; under a taken one nothing changes.
    pub fn register(&mut self) -> (viewer: Option<ViewerId>)
        requires
            old(self)@.wf(),
        ensures
            exists|drawn: ViewerId|
                is_random_uuid(drawn) && #[trigger] old(self)@.registered_under(drawn) == (
                    viewer,
                    final(self)@,
                ),
            old(self)@.no_random_id_taken() ==> viewer is Some,
            match viewer {
                Some(id) => {
                    &&& is_random_uuid(id)
                    &&& !old(self)@.votes.contains_key(id)
                    &&& final(self)@ == old(self)@.joined(id)
                },
                None => final(self)@ == old(self)@,
            },
            final(self)@.wf(),
    {
        let id = fresh_viewer_id();
        let viewer = if self.register_with(id) {
            Some(id)
        } else {
            None
        };
        assert(old(self)@.registered_under(id) == (viewer, self@));
        viewer
    }

    /// Removes a viewer with its vote, and takes back the vote of every
    /// remaining viewer.
    pub fn unregister(&mut self, id: ViewerId)
        requires
            old(self)@.wf(),
        ensures
            final(self)@ == old(self)@.left(id),
            final(self)@.wf(),
    {
        broadcast use group_hash_axioms;

        self.actions.remove(&id);
        clear_votes(&mut self.actions);
    }

    /// Records the vote of a registered viewer and looks at the votes. When
    /// this vote completes a consensus, the step is applied and the new
    /// snapshot comes back for broadcast to every viewer. A vote under an
    /// identifier that is not registered changes nothing.
    pub fn cast_vote(&mut self, id: ViewerId, intent: Action) -> (broadcast: Option<ClientState>)
        requires
            old(self)@.wf(),
        ensures
            final(self)@ == old(self)@.cast(id, intent),
            final(self)@.wf(),
            match broadcast {
                Some(snapshot) => {
                    &&& old(self)@.votes.contains_key(id)
                    &&& consensus(old(self)@.voted(id, intent).votes) is Some
                    &&& snapshot@ == final(self)@.snapshot()
                },
                None => !old(self)@.votes.contains_key(id) || consensus(
                    old(self)@.voted(id, intent).votes,
                ) is None,
            },
    {
        broadcast use group_hash_axioms;

        if !self.actions.contains_key(&id) {
            return None;
        }
        self.actions.insert(id, Some(intent));
        self.try_advance()
    }
}

} // verus!
