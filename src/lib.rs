//! Guest-side bindings for driving a host text editor across a numeric
//! entry-point boundary: transfer buffers, view and selection handles, a
//! scope-bound focus guard, the editor facade and a command-line builder.
//!
//! The library decides which host entry points are invoked, with which
//! arguments and in which order, and interprets what the host hands back.
//! Performing the calls themselves is left to the embedding program.
pub mod call;
pub mod command;
pub mod editor;
pub mod focus;
pub mod handle;
pub mod transfer;

pub use call::Call;
pub use command::Command;
pub use editor::{Editor, Insert, TextRead};
pub use focus::Focus;
pub use handle::{Selection, ViewId};
pub use transfer::{Transfer, TransferError};
