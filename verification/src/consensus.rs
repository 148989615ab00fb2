use std::collections::HashMap;
use vstd::prelude::*;
use vstd::std_specs::hash::*;
use vstd::std_specs::iter::IteratorSpec;

use crate::navigation::Action;

verus! {

/// The identifier of a connected viewer: the 128 bits of its UUID.
pub type ViewerId = u128;

/// The votes of the registered viewers. A viewer that has not voted in the
/// current round maps to `None`.
pub type Votes = Map<ViewerId, Option<Action>>;

/// There is at least one viewer, and every viewer has voted for `action`.
pub open spec fn unanimous(votes: Votes, action: Action) -> bool {
    &&& !votes.is_empty()
    &&& forall|id: ViewerId| votes.contains_key(id) ==> votes[id] == Some(action)
}

/// The direction that all viewers agree on, if there is one. A missing vote or
/// two different votes give `None`: there is no majority rule.
pub open spec fn consensus(votes: Votes) -> Option<Action> {
    if unanimous(votes, Action::Next) {
        Some(Action::Next)
    } else if unanimous(votes, Action::Prev) {
        Some(Action::Prev)
    } else {
        None
    }
}

/// The same viewers, none of which has voted.
pub open spec fn cleared(votes: Votes) -> Votes {
    Map::new(|id: ViewerId| votes.contains_key(id), |id: ViewerId| None::<Action>)
}

/// No viewer has a vote pending.
pub open spec fn all_clear(votes: Votes) -> bool {
    forall|id: ViewerId| votes.contains_key(id) ==> votes[id] == None::<Action>
}

/// Consensus is reached on `action` exactly when the votes are unanimous for it.
pub proof fn lemma_consensus_is_unanimity(votes: Votes, action: Action)
    ensures
        consensus(votes) == Some(action) <==> unanimous(votes, action),
{
    if unanimous(votes, Action::Next) && unanimous(votes, Action::Prev) {
        let id = choose|id: ViewerId| votes.contains_key(id);
        assert(votes.dom().contains(id)) by {
            if forall|k: ViewerId| !votes.dom().contains(k) {
                assert(votes.dom() =~= Set::empty());
            }
        }
        assert(votes[id] == Some(Action::Next));
        assert(votes[id] == Some(Action::Prev));
    }
}

/// One viewer without a vote, or two viewers with different votes, and there
/// is no consensus.
pub proof fn lemma_dissent_blocks_consensus(votes: Votes, id: ViewerId, other: ViewerId)
    requires
        votes.contains_key(id),
        votes.contains_key(other),
        votes[id] is None || votes[id] != votes[other],
    ensures
        consensus(votes) is None,
{
}

/// After clearing, the viewers are the same and no vote is pending, so there is
/// no consensus.
pub proof fn lemma_cleared(votes: Votes)
    ensures
        cleared(votes).dom() == votes.dom(),
        all_clear(cleared(votes)),
        consensus(cleared(votes)) is None,
{
    let c = cleared(votes);
    assert(c.dom() =~= votes.dom());
    if !c.is_empty() {
        let id = choose|id: ViewerId| c.dom().contains(id);
        assert(c.dom().contains(id)) by {
            if forall|k: ViewerId| !c.dom().contains(k) {
                assert(c.dom() =~= Set::empty());
            }
        }
        assert(c[id] == None::<Action>);
    }
}

/// Whether all viewers have voted for `action`, and there is a viewer at all.
pub fn all_agree(votes: &HashMap<ViewerId, Option<Action>>, action: Action) -> (agreed: bool)
    ensures
        agreed == unanimous(votes@, action),
{
    broadcast use group_hash_axioms;

    if votes.is_empty() {
        return false;
    }
    let mut agreed = true;
    let ghost pairs = spec_hash_map_iter(votes).remaining();
    let ghost mut seen: int = 0;
    for pair in it: votes.iter()
        invariant
            it.seq() == pairs,
            seen == it.index(),
            agreed == (forall|j: int| 0 <= j < seen ==> *pairs[j].1 == Some(action)),
    {
        let (_, vote) = pair;
        match vote {
            Some(cast) => {
                if *cast != action {
                    agreed = false;
                }
            },
            None => {
                agreed = false;
            },
        }
        proof {
            seen = seen + 1;
        }
    }
    proof {
        if agreed {
            assert forall|id: ViewerId| votes@.contains_key(id) implies votes@[id] == Some(
                action,
            ) by {
                assert(pairs.contains((&id, &votes@[id])));
                let j = choose|j: int| 0 <= j < pairs.len() && pairs[j] == (&id, &votes@[id]);
                assert(*pairs[j].1 == Some(action));
            }
        } else {
            let j = choose|j: int| 0 <= j < seen && *pairs[j].1 != Some(action);
            assert(votes@.contains_key(*pairs[j].0));
            assert(votes@[*pairs[j].0] == *pairs[j].1);
        }
    }
    agreed
}

/// The direction that every registered viewer has voted for, if there is one.
pub fn check_consensus(votes: &HashMap<ViewerId, Option<Action>>) -> (agreed: Option<Action>)
    ensures
        agreed == consensus(votes@),
{
    if all_agree(votes, Action::Next) {
        Some(Action::Next)
    } else if all_agree(votes, Action::Prev) {
        Some(Action::Prev)
    } else {
        None
    }
}

/// The registered viewers, each once, in no particular order.
pub fn viewer_ids(votes: &HashMap<ViewerId, Option<Action>>) -> (ids: Vec<ViewerId>)
    ensures
        ids@.no_duplicates(),
        ids@.to_set() == votes@.dom(),
        ids@.len() == votes@.len(),
{
    broadcast use group_hash_axioms;

    let mut ids: Vec<ViewerId> = Vec::new();
    let ghost keys = spec_keys_iter(votes).remaining();
    for key in it: votes.keys()
        invariant
            it.seq() == keys,
            ids@.len() == it.index(),
            forall|j: int| 0 <= j < ids@.len() ==> ids@[j] == *keys[j],
    {
        ids.push(*key);
    }
    assert(ids@ =~= keys.unref());
    assert(ids@.no_duplicates()) by {
        assert forall|i: int, j: int| 0 <= i < ids@.len() && 0 <= j < ids@.len() && i != j implies ids@[i]
            != ids@[j] by {
            assert(keys[i] != keys[j]);
        }
    }
    ids
}

/// Takes back every vote and keeps every viewer.
pub fn clear_votes(votes: &mut HashMap<ViewerId, Option<Action>>)
    ensures
        final(votes)@ == cleared(old(votes)@),
{
    broadcast use group_hash_axioms;

    let ids = viewer_ids(votes);
    let ghost dom = votes@.dom();
    let mut i: usize = 0;
    while i < ids.len()
        invariant
            i <= ids.len(),
            ids@.to_set() == dom,
            votes@.dom() == dom,
            forall|j: int| 0 <= j < i ==> votes@[ids@[j]] == None::<Action>,
        decreases ids.len() - i,
    {
        let id = ids[i];
        assert(ids@.contains(id));
        votes.insert(id, None);
        assert(votes@.dom() =~= dom);
        i += 1;
    }
    assert forall|id: ViewerId| votes@.contains_key(id) implies votes@[id] == None::<Action> by {
        assert(ids@.to_set().contains(id));
        assert(ids@.contains(id));
    }
    assert(votes@ =~= cleared(old(votes)@));
}

} // verus!
