//! The coordinator: the request queue (interface to worker), the worker's
//! state machine, and the result queue (worker to interface), driven in one
//! place. The interface calls `request_pick` and `poll_selection`; the worker's
//! side is `begin_dialog` and `end_dialog`.

use std::collections::VecDeque;
use vstd::prelude::*;

use crate::worker::{DialogConfig, DialogOutcome, Phase, PickRequest, Worker};

verus! {

/// The abstract state of a coordinator.
///
/// Requests are numbered from 0 in the order they were issued. Requests
/// `0 .. opened` have each had a picker opened for them; requests
/// `opened .. issued` wait in the request queue, oldest first.
pub ghost struct CoordinatorView {
    /// How many pick requests the interface has issued.
    pub issued: nat,
    /// How many pickers the worker has opened.
    pub opened: nat,
    /// The chosen file names not yet polled, oldest first.
    pub results: Seq<Seq<char>>,
    /// What the worker is doing.
    pub phase: Phase,
}

impl CoordinatorView {
    /// The state right after construction: nothing issued, nothing to report.
    pub open spec fn initial() -> CoordinatorView {
        CoordinatorView { issued: 0, opened: 0, results: Seq::empty(), phase: Phase::Idle }
    }

    /// How many requests wait in the request queue.
    pub open spec fn pending(self) -> int {
        self.issued - self.opened
    }

    /// How many pickers are open right now.
    pub open spec fn open_dialogs(self) -> nat {
        if self.phase == Phase::AwaitingUser {
            1
        } else {
            0
        }
    }

    /// The interface has issued one more request.
    pub open spec fn requested(self) -> CoordinatorView {
        CoordinatorView { issued: self.issued + 1, ..self }
    }

    /// The state after one poll, and what the poll reports: the oldest
    /// chosen name, or nothing when none is waiting.
    pub open spec fn polled(self) -> (CoordinatorView, Option<Seq<char>>) {
        if self.results.len() == 0 {
            (self, None)
        } else {
            (CoordinatorView { results: self.results.drop_first(), ..self }, Some(self.results[0]))
        }
    }

    /// The worker can open a picker: it is idle and a request waits.
    pub open spec fn can_begin(self) -> bool {
        self.phase == Phase::Idle && self.pending() > 0
    }

    /// The worker takes the oldest waiting request (number `opened`) and opens
    /// a picker for it; when it cannot, nothing changes.
    pub open spec fn begun(self) -> CoordinatorView {
        if self.can_begin() {
            CoordinatorView { opened: self.opened + 1, phase: Phase::AwaitingUser, ..self }
        } else {
            self
        }
    }

    /// The open picker has closed with `selection`: the worker goes back to
    /// idle, and a chosen name joins the result queue. With no picker open,
    /// nothing changes.
    pub open spec fn ended(self, selection: Option<Seq<char>>) -> CoordinatorView {
        if self.phase == Phase::AwaitingUser {
            CoordinatorView {
                results: match selection {
                    Some(name) => self.results.push(name),
                    None => self.results,
                },
                phase: Phase::Idle,
                ..self
            }
        } else {
            self
        }
    }
}

/// The text of a name handed out by `poll_selection`, if any.
pub open spec fn name_view(name: Option<String>) -> Option<Seq<char>> {
    match name {
        Some(s) => Some(s@),
        None => None,
    }
}

/// The request queue, the worker and the result queue of one coordinator.
pub struct Coordinator {
    requests: VecDeque<PickRequest>,
    results: VecDeque<String>,
    worker: Worker,
    issued: Ghost<nat>,
    opened: Ghost<nat>,
}

impl View for Coordinator {
    type V = CoordinatorView;

    closed spec fn view(&self) -> CoordinatorView {
        CoordinatorView {
            issued: self.issued@,
            opened: self.opened@,
            results: self.results@.map_values(|s: String| s@),
            phase: self.worker@,
        }
    }
}

impl Coordinator {
    /// The request queue holds exactly the requests that have not had a picker.
    pub closed spec fn wf(&self) -> bool {
        &&& self.opened@ <= self.issued@
        &&& self.requests@.len() == self.issued@ - self.opened@
    }

    /// A coordinator with empty queues and an idle worker.
    pub fn new() -> (c: Coordinator)
        ensures
            c.wf(),
            c@ == CoordinatorView::initial(),
    {
        let c = Coordinator {
            requests: VecDeque::new(),
            results: VecDeque::new(),
            worker: Worker::new(),
            issued: Ghost(0),
            opened: Ghost(0),
        };
        assert(c@.results =~= Seq::<Seq<char>>::empty());
        c
    }

    /// Asks for a picker. The request is queued whatever the worker is doing,
    /// and is served after every request issued before it.
    pub fn request_pick(&mut self)
        requires
            old(self).wf(),
        ensures
            final(self).wf(),
            final(self)@ == old(self)@.requested(),
    {
        self.requests.push_back(PickRequest::Open);
        self.issued = Ghost(self.issued@ + 1);
    }

    /// Takes the oldest chosen name that has not been polled yet, or reports
    /// that none is waiting. Whatever the worker is doing, this neither waits
    /// nor changes it.
    pub fn poll_selection(&mut self) -> (name: Option<String>)
        requires
            old(self).wf(),
        ensures
            final(self).wf(),
            (final(self)@, name_view(name)) == old(self)@.polled(),
    {
        let name = self.results.pop_front();
        proof {
            if old(self).results@.len() > 0 {
                assert(self@.results =~= old(self)@.results.drop_first());
            }
        }
        name
    }

    /// Worker side: when the worker is idle and a request waits, takes the
    /// oldest request and returns the picker to open for it. Otherwise nothing
    /// changes and the worker keeps waiting.
    pub fn begin_dialog(&mut self) -> (config: Option<DialogConfig>)
        requires
            old(self).wf(),
        ensures
            final(self).wf(),
            final(self)@ == old(self)@.begun(),
            config is Some <==> old(self)@.can_begin(),
            config matches Some(c) ==> c.is_text_files(),
    {
        if self.worker.phase() != Phase::Idle {
            return None;
        }
        match self.requests.pop_front() {
            Some(request) => {
                let config = self.worker.accept_request(request);
                self.opened = Ghost(self.opened@ + 1);
                Some(config)
            },
            None => None,
        }
    }

    /// Worker side: the open picker has closed with `outcome`. A chosen name
    /// joins the result queue; a cancel leaves it as it was.
    pub fn end_dialog(&mut self, outcome: DialogOutcome)
        requires
            old(self).wf(),
            old(self)@.phase == Phase::AwaitingUser,
        ensures
            final(self).wf(),
            final(self)@ == old(self)@.ended(outcome.selection_view()),
    {
        let delivery = self.worker.finish_dialog(outcome);
        match delivery {
            Some(name) => {
                self.results.push_back(name);
                assert(self@.results =~= old(self)@.results.push(name@));
            },
            None => {},
        }
    }

    /// What the worker is doing.
    pub fn phase(&self) -> (p: Phase)
        ensures
            p == self@.phase,
    {
        self.worker.phase()
    }

    /// How many requests wait for a picker.
    pub fn pending_requests(&self) -> (n: usize)
        requires
            self.wf(),
        ensures
            n == self@.pending(),
    {
        self.requests.len()
    }

    /// How many chosen names wait to be polled.
    pub fn ready_selections(&self) -> (n: usize)
        ensures
            n == self@.results.len(),
    {
        self.results.len()
    }
}

} // verus!
