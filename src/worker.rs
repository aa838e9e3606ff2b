//! The worker's side of the protocol: a state machine that takes one pick
//! request at a time, opens the file picker for it, and turns the picker's
//! outcome into the name to hand back to the interface.

use vstd::prelude::*;

verus! {

/// The signal that asks the worker to show the file picker. It carries no payload.
#[derive(Clone, Copy, Debug, PartialEq, Eq, Structural)]
pub enum PickRequest {
    Open,
}

/// What the worker is doing.
#[derive(Clone, Copy, Debug, PartialEq, Eq, Structural)]
pub enum Phase {
    /// Blocked on the request queue.
    Idle,
    /// A file picker is open and the worker waits for the user.
    AwaitingUser,
}

/// How a file picker ended.
#[derive(Debug)]
pub enum DialogOutcome {
    /// The user chose a file; `name` is its display name.
    Selected { name: String },
    /// The user closed the picker without choosing a file, or the chosen
    /// file could not be read.
    Canceled,
}

impl DialogOutcome {
    /// The name this outcome hands back to the interface, if any.
    pub open spec fn selection(&self) -> Option<String> {
        match self {
            DialogOutcome::Selected { name } => Some(*name),
            DialogOutcome::Canceled => None,
        }
    }

    /// The text of the name this outcome hands back, if any.
    pub open spec fn selection_view(&self) -> Option<Seq<char>> {
        match self {
            DialogOutcome::Selected { name } => Some(name@),
            DialogOutcome::Canceled => None,
        }
    }
}

/// How the file picker is set up: one named filter of file extensions and
/// the directory it starts in.
#[derive(Debug)]
pub struct DialogConfig {
    pub filter_name: String,
    pub extensions: Vec<String>,
    pub directory: String,
}

impl DialogConfig {
    /// A picker for text files (`.txt`) that starts in the current directory.
    pub open spec fn is_text_files(&self) -> bool {
        &&& self.filter_name@ == "text"@
        &&& self.extensions@.len() == 1
        &&& self.extensions@[0]@ == "txt"@
        &&& self.directory@ == "."@
    }

    /// The picker that the worker opens for every request.
    pub fn text_files() -> (c: DialogConfig)
        ensures
            c.is_text_files(),
    {
        let mut extensions: Vec<String> = Vec::new();
        extensions.push("txt".to_owned());
        DialogConfig { filter_name: "text".to_owned(), extensions, directory: ".".to_owned() }
    }
}

/// The worker's state machine. The worker that runs it blocks on the request
/// queue while `Idle`, and waits on the picker while `AwaitingUser`; it takes
/// the next request only once the picker is closed, so at most one picker is
/// ever open.
pub struct Worker {
    phase: Phase,
}

impl View for Worker {
    type V = Phase;

    closed spec fn view(&self) -> Phase {
        self.phase
    }
}

impl Worker {
    /// A worker that waits for its first request.
    pub fn new() -> (w: Worker)
        ensures
            w@ == Phase::Idle,
    {
        Worker { phase: Phase::Idle }
    }

    pub fn phase(&self) -> (p: Phase)
        ensures
            p == self@,
    {
        self.phase
    }

    /// A request has arrived: open the picker it asks for.
    pub fn accept_request(&mut self, request: PickRequest) -> (config: DialogConfig)
        requires
            old(self)@ == Phase::Idle,
        ensures
            final(self)@ == Phase::AwaitingUser,
            config.is_text_files(),
    {
        match request {
            PickRequest::Open => {
                self.phase = Phase::AwaitingUser;
                DialogConfig::text_files()
            },
        }
    }

    /// The picker has closed: go back to waiting for requests, and return the
    /// name to hand to the interface. A cancel hands back nothing.
    pub fn finish_dialog(&mut self, outcome: DialogOutcome) -> (delivery: Option<String>)
        requires
            old(self)@ == Phase::AwaitingUser,
        ensures
            final(self)@ == Phase::Idle,
            delivery == outcome.selection(),
    {
        self.phase = Phase::Idle;
        match outcome {
            DialogOutcome::Selected { name } => Some(name),
            DialogOutcome::Canceled => None,
        }
    }
}

} // verus!
