use vstd::prelude::*;

use crate::consensus::ViewerId;
use crate::snapshot::{snapshot_json, ClientState};
use crate::state::{AppState, StateView};

verus! {

/// What is put into a viewer's outbound queue.
#[derive(Debug)]
pub enum Frame {
    /// A snapshot as JSON text.
    Text(String),
    /// The periodic sign of life, without content.
    Ping,
}

/// A frame as mathematics.
pub enum FrameView {
    Text(Seq<char>),
    Ping,
}

impl View for Frame {
    type V = FrameView;

    open spec fn view(&self) -> FrameView {
        match self {
            Frame::Text(text) => FrameView::Text(text@),
            Frame::Ping => FrameView::Ping,
        }
    }
}

/// One frame and the viewers into whose queues it goes.
#[derive(Debug)]
pub struct Delivery {
    pub frame: Frame,
    pub recipients: Vec<ViewerId>,
}

impl Delivery {
    /// The delivery reaches every registered viewer of the state, each once.
    pub open spec fn reaches_all(&self, state: StateView) -> bool {
        &&& self.recipients@.no_duplicates()
        &&& self.recipients@.to_set() == state.votes.dom()
    }
}

impl AppState {
    /// The fan-out after an accepted step: the current snapshot as JSON text,
    /// for every registered viewer, the one whose vote decided included.
    pub fn broadcast_state(&self) -> (delivery: Delivery)
        requires
            self@.wf(),
        ensures
            delivery.frame@ == FrameView::Text(snapshot_json(self@.snapshot())),
            delivery.reaches_all(self@),
    {
        let snapshot = self.get_client_state();
        self.deliver(&snapshot)
    }

    /// The fan-out of a snapshot that was taken already.
    pub fn deliver(&self, snapshot: &ClientState) -> (delivery: Delivery)
        ensures
            delivery.frame@ == FrameView::Text(snapshot_json(snapshot@)),
            delivery.reaches_all(self@),
    {
        Delivery { frame: Frame::Text(snapshot.to_json()), recipients: self.viewers() }
    }

    /// The heartbeat of one tick: a ping for every registered viewer.
    pub fn heartbeat(&self) -> (delivery: Delivery)
        ensures
            delivery.frame@ == FrameView::Ping,
            delivery.reaches_all(self@),
    {
        Delivery { frame: Frame::Ping, recipients: self.viewers() }
    }
}

} // verus!
