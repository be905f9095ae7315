//! Document state and structural navigation for a language server over
//! bracketed text: the open documents, the translation between editor
//! positions and text offsets, the bracket syntax handed to the tree engine,
//! and the checks and replies around each structural command.
pub mod coords;
pub mod dispatch;
pub mod profile;
pub mod selection;
pub mod store;
pub mod text;
