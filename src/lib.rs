//! Launch-time file-association handling for a desktop Markdown editor.
//!
//! An operating system may ask the editor to open a document before the user
//! interface is ready to receive it. The `mailbox` module holds at most one
//! pending path with take-once semantics; the `coordinator` module filters the
//! identifiers of an open-file notification and decides, for each accepted
//! path, between immediate delivery and storing it for the interface's
//! ready query.

pub mod mailbox;
pub mod text;
pub mod coordinator;
