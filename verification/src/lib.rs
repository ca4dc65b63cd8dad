//! Input-dispatch and focus state machine for a terminal shell that lets a
//! user navigate a tree of named documents and edit the selected document's
//! text in an embedded editor pane.
//!
//! The heart of the crate is the [`dispatch::Dispatcher`]: it decides, for
//! every incoming key event, which pane is addressed, whether the event
//! continues a multi-key command sequence, and which action results. The
//! surrounding terminal loop (reading events, painting widgets, writing
//! files) performs the actions the dispatcher returns.

pub mod dispatch;
pub mod keys;
pub mod laws;
pub mod store;
