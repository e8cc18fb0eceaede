//! Core logic of a command-line client for a remote analytics-data platform:
//! resource objects in an editable text form, a pagination aggregator, an
//! edit-before-submit workflow, an output formatter, and a command dispatcher
//! that sequences collaborator calls. The network client, the external editor
//! and all file handling live outside this crate; the dispatcher drives them
//! through a protocol of actions and events.

pub mod command;
pub mod dispatch;
pub mod edit;
pub mod format;
pub mod object;
pub mod paginate;
