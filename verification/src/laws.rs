use vstd::prelude::*;

use crate::consensus::{all_clear, cleared, consensus, lemma_cleared, unanimous, ViewerId};
use crate::navigation::{at_edge, lemma_step_in_range, step, Action};
use crate::state::StateView;

verus! {

/// A join, a leave, a vote and a look at the votes all keep the state well
/// formed: the cursor names a page that exists at every point in time.
pub proof fn law_cursor_stays_in_range(state: StateView, id: ViewerId, intent: Action)
    requires
        state.wf(),
    ensures
        state.joined(id).wf(),
        state.left(id).wf(),
        state.voted(id, intent).wf(),
        state.navigated(intent).wf(),
        state.settled().wf(),
        state.cast(id, intent).wf(),
{
    lemma_step_in_range(state.pages(), state.cursor, intent);
    lemma_step_in_range(state.pages(), state.cursor, Action::Next);
    lemma_step_in_range(state.pages(), state.cursor, Action::Prev);
    lemma_cleared(state.votes);
    lemma_cleared(state.votes.remove(id));
    lemma_cleared(state.voted(id, intent).votes);
    let v = state.voted(id, intent);
    lemma_step_in_range(v.pages(), v.cursor, Action::Next);
    lemma_step_in_range(v.pages(), v.cursor, Action::Prev);
}

/// A join, a leave and a vote keep the set of viewers but for the one who
/// joins or leaves: taking votes back never drops or adds a viewer.
pub proof fn law_membership(state: StateView, id: ViewerId, intent: Action)
    ensures
        state.joined(id).votes.dom() == state.votes.dom().insert(id),
        state.left(id).votes.dom() == state.votes.dom().remove(id),
        state.settled().votes.dom() == state.votes.dom(),
        state.cast(id, intent).votes.dom() == state.votes.dom(),
{
    lemma_cleared(state.votes);
    lemma_cleared(state.votes.remove(id));
    lemma_cleared(state.voted(id, intent).votes);
    assert(state.joined(id).votes.dom() =~= state.votes.dom().insert(id));
    assert(state.left(id).votes.dom() =~= state.votes.dom().remove(id));
    if state.votes.contains_key(id) {
        assert(state.voted(id, intent).votes.dom() =~= state.votes.dom());
    }
}

/// Looking at the votes moves the cursor exactly when all viewers have cast
/// the same vote and the cursor is not at the edge that the vote points to.
pub proof fn law_cursor_moves_iff_consensus_off_edge(state: StateView)
    requires
        state.wf(),
    ensures
        state.settled().cursor != state.cursor <==> exists|action: Action|
            #[trigger] unanimous(state.votes, action) && !at_edge(
                state.pages(),
                state.cursor,
                action,
            ),
{
    crate::consensus::lemma_consensus_is_unanimity(state.votes, Action::Next);
    crate::consensus::lemma_consensus_is_unanimity(state.votes, Action::Prev);
    crate::navigation::lemma_step_moves_unless_at_edge(state.pages(), state.cursor, Action::Next);
    crate::navigation::lemma_step_moves_unless_at_edge(state.pages(), state.cursor, Action::Prev);
    match consensus(state.votes) {
        Some(action) => {
            assert(unanimous(state.votes, action));
        },
        None => {},
    }
}

/// Away from the edges of the collection, looking at the votes moves the
/// cursor if and only if there is a viewer and all viewers have cast the same
/// vote in this round.
pub proof fn law_cursor_moves_iff_unanimous(state: StateView)
    requires
        state.wf(),
        !at_edge(state.pages(), state.cursor, Action::Next),
        !at_edge(state.pages(), state.cursor, Action::Prev),
    ensures
        state.settled().cursor != state.cursor <==> exists|action: Action| #[trigger]
            unanimous(state.votes, action),
{
    law_cursor_moves_iff_consensus_off_edge(state);
    if exists|action: Action| #[trigger] unanimous(state.votes, action) {
        let action = choose|action: Action| #[trigger] unanimous(state.votes, action);
        match action {
            Action::Next => {
                assert(unanimous(state.votes, Action::Next) && !at_edge(
                    state.pages(),
                    state.cursor,
                    Action::Next,
                ));
            },
            Action::Prev => {
                assert(unanimous(state.votes, Action::Prev) && !at_edge(
                    state.pages(),
                    state.cursor,
                    Action::Prev,
                ));
            },
        }
    }
}

/// One viewer that has not voted, or two viewers that have voted differently,
/// and looking at the votes changes nothing: the cursor stays and the votes
/// stay pending.
pub proof fn law_dissent_changes_nothing(state: StateView, id: ViewerId, other: ViewerId)
    requires
        state.votes.contains_key(id),
        state.votes.contains_key(other),
        state.votes[id] is None || state.votes[id] != state.votes[other],
    ensures
        state.settled() == state,
{
    crate::consensus::lemma_dissent_blocks_consensus(state.votes, id, other);
}

/// Every accepted step takes back all votes, also where the cursor stands at
/// the edge and does not move; so does every join and every leave.
pub proof fn law_votes_reset(state: StateView, id: ViewerId, action: Action)
    ensures
        all_clear(state.navigated(action).votes),
        consensus(state.votes) is Some ==> all_clear(state.settled().votes),
        all_clear(state.joined(id).votes),
        all_clear(state.left(id).votes),
{
    lemma_cleared(state.votes);
    lemma_cleared(state.votes.remove(id));
}

/// With a single viewer, one vote of that viewer moves the cursor exactly one
/// step in the direction voted for: to the next or previous page, across the
/// boundary between two items, and not at all at the edge of the collection.
pub proof fn law_single_viewer_decides(state: StateView, id: ViewerId, intent: Action)
    requires
        state.wf(),
        state.votes.dom() == set![id],
    ensures
        state.cast(id, intent).cursor == step(state.pages(), state.cursor, intent),
        all_clear(state.cast(id, intent).votes),
        state.cast(id, intent).votes.dom() == state.votes.dom(),
{
    let v = state.voted(id, intent);
    assert(state.votes.dom().contains(id));
    assert(v.votes.dom() =~= set![id]);
    assert(!v.votes.is_empty()) by {
        assert(v.votes.dom().contains(id));
    }
    assert(unanimous(v.votes, intent));
    crate::consensus::lemma_consensus_is_unanimity(v.votes, intent);
    lemma_cleared(v.votes);
}

} // verus!
