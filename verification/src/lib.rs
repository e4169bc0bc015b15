//! Verified core of the DASH desktop shell around `dsh web`: the event-stream
//! framing and classification behind conversation notifications, and the
//! decisions of start-up, launch, update and menu handling.
pub mod frame;
pub mod text;
pub mod json;
pub mod notify;
pub mod shared;
pub mod server;
pub mod boot;
pub mod update;
pub mod state;
