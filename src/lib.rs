//! A coordinator that keeps a user interface responsive while a modal file
//! picker is open: the interface enqueues pick requests and polls for chosen
//! file names, and a single worker shows one picker at a time.

pub mod coordinator;
pub mod laws;
pub mod worker;

pub use coordinator::{Coordinator, CoordinatorView};
pub use worker::{DialogConfig, DialogOutcome, Phase, PickRequest, Worker};
