//! Frame orchestration and scene lifecycle for an interactive application shell.
//!
//! The library keeps time (`time`), drives the active scene (`scene`) over the
//! entity-data world (`world`), decides how raw input is routed (`input`), holds the
//! render configuration (`options`) and the choice of asset source (`args`), and
//! sequences one frame of work (`frame`). The renderer, the window and the asset
//! services are collaborators that the caller drives with the values handed back.

pub mod args;
pub mod frame;
pub mod input;
pub mod options;
pub mod scene;
pub mod time;
pub mod world;
