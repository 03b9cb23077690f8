//! A verified core for an AI note-taking assistant.
//!
//! The library models a rich-text note as a tree of typed nodes, projects
//! that tree into a flat brief for a language model, assembles the system
//! prompt, and parses the model's raw reply back into a typed edit action.

pub mod json;
pub mod note;
pub mod wire;
pub mod agent;
pub mod codec;
