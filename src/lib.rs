//! Vehicle diagnostic communication stack: typed bus frames, the adapter
//! abstraction with its filter model, and the diagnostic protocol layer.

pub mod filters;
pub mod frames;
pub mod hardware;
pub mod launcher;
pub mod logger;
pub mod paths;
pub mod protocol;
pub mod simulation;
pub mod text;
pub mod thesaurus;
